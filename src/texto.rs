//! Character-level helpers on text.
use vstd::prelude::*;

verus! {

/// Index of the last `.` in `s`, or -1 when there is none.
pub open spec fn ultimo_ponto(s: Seq<char>) -> int
    decreases s.len(),
{
    if s.len() == 0 {
        -1
    } else if s.last() == '.' {
        s.len() - 1
    } else {
        ultimo_ponto(s.drop_last())
    }
}

pub proof fn lemma_ultimo_ponto(s: Seq<char>)
    ensures
        -1 <= ultimo_ponto(s) < s.len(),
        ultimo_ponto(s) >= 0 ==> s[ultimo_ponto(s)] == '.',
        forall|j: int| ultimo_ponto(s) < j < s.len() ==> s[j] != '.',
    decreases s.len(),
{
    if s.len() > 0 && s.last() != '.' {
        lemma_ultimo_ponto(s.drop_last());
        assert forall|j: int| ultimo_ponto(s) < j < s.len() implies s[j] != '.' by {
            if j < s.len() - 1 {
                assert(s.drop_last()[j] == s[j]);
            }
        }
    }
}

/// A file name without its extension: everything before the last dot, unless
/// that dot opens the name (a hidden file keeps its whole name).
pub open spec fn haste(nome: Seq<char>) -> Seq<char> {
    if ultimo_ponto(nome) > 0 {
        nome.subrange(0, ultimo_ponto(nome))
    } else {
        nome
    }
}

/// The extension of a file name: what follows its last dot, if that dot does
/// not open the name.
pub open spec fn extensao(nome: Seq<char>) -> Option<Seq<char>> {
    if ultimo_ponto(nome) > 0 {
        Some(nome.subrange(ultimo_ponto(nome) + 1, nome.len() as int))
    } else {
        None
    }
}

pub open spec fn eh_digito(c: char) -> bool {
    '0' <= c <= '9'
}

pub open spec fn eh_alfanumerico(c: char) -> bool {
    ('0' <= c <= '9') || ('a' <= c <= 'z') || ('A' <= c <= 'Z')
}

pub open spec fn minuscula(c: char) -> char {
    if 'A' <= c <= 'Z' {
        ((c as u32) + 32) as char
    } else {
        c
    }
}

pub open spec fn maiuscula(c: char) -> char {
    if 'a' <= c <= 'z' {
        ((c as u32) - 32) as char
    } else {
        c
    }
}

/// ASCII lower-casing of a whole text; other characters are kept.
pub open spec fn minusculas(s: Seq<char>) -> Seq<char> {
    s.map_values(|c: char| minuscula(c))
}

/// The characters with Unicode's `White_Space` property, which `str::trim`
/// removes.
pub open spec fn eh_espaco(c: char) -> bool {
    ('\u{9}' <= c <= '\u{d}') || c == ' ' || c == '\u{85}' || c == '\u{a0}' || c == '\u{1680}'
        || ('\u{2000}' <= c <= '\u{200a}') || c == '\u{2028}' || c == '\u{2029}' || c == '\u{202f}'
        || c == '\u{205f}' || c == '\u{3000}'
}

/// A text without its leading white space.
pub open spec fn sem_espaco_inicial(s: Seq<char>) -> Seq<char>
    decreases s.len(),
{
    if s.len() > 0 && eh_espaco(s[0]) {
        sem_espaco_inicial(s.drop_first())
    } else {
        s
    }
}

/// A text without its trailing white space.
pub open spec fn sem_espaco_final(s: Seq<char>) -> Seq<char>
    decreases s.len(),
{
    if s.len() > 0 && eh_espaco(s.last()) {
        sem_espaco_final(s.drop_last())
    } else {
        s
    }
}

/// What `str::trim` leaves of a text: no white space at either end.
pub open spec fn aparado(s: Seq<char>) -> Seq<char> {
    sem_espaco_final(sem_espaco_inicial(s))
}

/// Relies on `str::trim`, which removes the `White_Space` characters at both
/// ends.
#[verifier::external_body]
pub(crate) fn aparar(s: &str) -> (r: String)
    ensures
        r@ == aparado(s@),
{
    s.trim().to_string()
}

/// Relies on `String`'s `FromIterator<char>`: the characters, in order.
#[verifier::external_body]
pub(crate) fn texto_de(cs: &Vec<char>) -> (r: String)
    ensures
        r@ == cs@,
{
    cs.iter().collect()
}

pub fn eh_digito_exec(c: char) -> (r: bool)
    ensures
        r == eh_digito(c),
{
    '0' <= c && c <= '9'
}

pub fn eh_alfanumerico_exec(c: char) -> (r: bool)
    ensures
        r == eh_alfanumerico(c),
{
    ('0' <= c && c <= '9') || ('a' <= c && c <= 'z') || ('A' <= c && c <= 'Z')
}

pub fn minuscula_exec(c: char) -> (r: char)
    ensures
        r == minuscula(c),
{
    if 'A' <= c && c <= 'Z' {
        ((c as u32) + 32) as u8 as char
    } else {
        c
    }
}

pub fn maiuscula_exec(c: char) -> (r: char)
    ensures
        r == maiuscula(c),
{
    if 'a' <= c && c <= 'z' {
        ((c as u32) - 32) as u8 as char
    } else {
        c
    }
}

/// The characters of a text, in order.
pub fn caracteres(s: &str) -> (r: Vec<char>)
    ensures
        r@ == s@,
{
    let n = s.unicode_len();
    let mut out: Vec<char> = Vec::new();
    let mut i: usize = 0;
    while i < n
        invariant
            n == s@.len(),
            i <= n,
            out@ == s@.subrange(0, i as int),
        decreases n - i,
    {
        out.push(s.get_char(i));
        i = i + 1;
        assert(out@ =~= s@.subrange(0, i as int));
    }
    assert(out@ =~= s@);
    out
}

/// Equality of two texts, character by character.
pub fn texto_igual(a: &str, b: &str) -> (r: bool)
    ensures
        r == (a@ == b@),
{
    let n = a.unicode_len();
    if n != b.unicode_len() {
        return false;
    }
    let mut i: usize = 0;
    while i < n
        invariant
            n == a@.len(),
            n == b@.len(),
            i <= n,
            a@.subrange(0, i as int) == b@.subrange(0, i as int),
        decreases n - i,
    {
        if a.get_char(i) != b.get_char(i) {
            assert(a@[i as int] != b@[i as int]);
            return false;
        }
        assert(a@.subrange(0, i + 1) =~= a@.subrange(0, i as int).push(a@[i as int]));
        assert(b@.subrange(0, i + 1) =~= b@.subrange(0, i as int).push(b@[i as int]));
        i = i + 1;
    }
    assert(a@ =~= a@.subrange(0, n as int));
    assert(b@ =~= b@.subrange(0, n as int));
    true
}

/// ASCII lower-casing of a text.
pub fn para_minusculas(s: &str) -> (r: String)
    ensures
        r@ == minusculas(s@),
{
    let n = s.unicode_len();
    let mut out: Vec<char> = Vec::new();
    let mut i: usize = 0;
    while i < n
        invariant
            n == s@.len(),
            i <= n,
            out@ == minusculas(s@.subrange(0, i as int)),
        decreases n - i,
    {
        out.push(minuscula_exec(s.get_char(i)));
        i = i + 1;
        assert(out@ =~= minusculas(s@.subrange(0, i as int)));
    }
    assert(s@ =~= s@.subrange(0, n as int));
    texto_de(&out)
}

/// Position of the last dot in a text.
pub fn ultimo_ponto_exec(s: &str) -> (r: Option<usize>)
    ensures
        match r {
            Some(i) => i as int == ultimo_ponto(s@),
            None => ultimo_ponto(s@) == -1,
        },
{
    let n = s.unicode_len();
    let mut i: usize = n;
    assert(s@.subrange(0, n as int) =~= s@);
    while i > 0
        invariant
            n == s@.len(),
            i <= n,
            ultimo_ponto(s@) == ultimo_ponto(s@.subrange(0, i as int)),
        decreases i,
    {
        let ghost sub = s@.subrange(0, i as int);
        assert(sub.drop_last() =~= s@.subrange(0, i - 1));
        assert(sub.last() == s@[i - 1]);
        if s.get_char(i - 1) == '.' {
            return Some(i - 1);
        }
        i = i - 1;
    }
    None
}

/// The name without its extension.
pub fn haste_exec(nome: &str) -> (r: String)
    ensures
        r@ == haste(nome@),
{
    proof {
        lemma_ultimo_ponto(nome@);
    }
    match ultimo_ponto_exec(nome) {
        Some(p) => {
            if p > 0 {
                String::from_str(nome.substring_char(0, p))
            } else {
                String::from_str(nome)
            }
        },
        None => String::from_str(nome),
    }
}

/// Whether the name's extension is exactly `ext`.
pub fn tem_extensao(nome: &str, ext: &str) -> (r: bool)
    ensures
        r == (extensao(nome@) == Some(ext@)),
{
    proof {
        lemma_ultimo_ponto(nome@);
    }
    let n = nome.unicode_len();
    match ultimo_ponto_exec(nome) {
        Some(p) => {
            if p > 0 {
                texto_igual(nome.substring_char(p + 1, n), ext)
            } else {
                false
            }
        },
        None => false,
    }
}

} // verus!
