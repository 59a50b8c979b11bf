//! The source files of a project, in the order the compiler receives them.
use vstd::prelude::*;
use crate::caminho::{Caminho, CaminhoM, juntar_m, nome_m, vistas};
use crate::texto::{extensao, tem_extensao};

verus! {

/// One entry met while walking a directory tree.
pub struct Entrada {
    pub caminho: Caminho,
    pub eh_arquivo: bool,
}

/// Whether a path names a source file by its extension.
pub open spec fn nome_fonte_m(c: CaminhoM) -> bool {
    match nome_m(c) {
        Some(n) => extensao(n) == Some("pr"@),
        None => false,
    }
}

/// The source files among the entries, in the order met: regular files
/// with the `pr` extension.
pub open spec fn fontes_m(es: Seq<Entrada>) -> Seq<CaminhoM>
    decreases es.len(),
{
    if es.len() == 0 {
        Seq::empty()
    } else {
        let resto = fontes_m(es.drop_last());
        let e = es.last();
        if e.eh_arquivo && nome_fonte_m(e.caminho@) {
            resto.push(e.caminho@)
        } else {
            resto
        }
    }
}

/// The first index of `x` in `s`, looking from `i` on.
pub open spec fn indice_desde(s: Seq<CaminhoM>, x: CaminhoM, i: int) -> Option<int>
    decreases s.len() - i,
{
    if i < 0 || i >= s.len() {
        None
    } else if s[i] == x {
        Some(i)
    } else {
        indice_desde(s, x, i + 1)
    }
}

/// `s` with the first occurrence of `x`, if any, moved to the front; the
/// others keep their order.
pub open spec fn para_frente(s: Seq<CaminhoM>, x: CaminhoM) -> Seq<CaminhoM> {
    match indice_desde(s, x, 0) {
        Some(i) => seq![s[i]] + s.remove(i),
        None => s,
    }
}

/// The entry point of a project: `<raiz>/src/programa.pr`.
pub open spec fn programa_m(raiz: CaminhoM) -> CaminhoM {
    juntar_m(juntar_m(raiz, "src"@), "programa.pr"@)
}

/// The sources of the project at `raiz`, given the entries met walking
/// `<raiz>/src`: the source files in the order met, with the entry point
/// moved first when it is among them.
pub open spec fn listar_prs_m(raiz: CaminhoM, es: Seq<Entrada>) -> Seq<CaminhoM> {
    para_frente(fontes_m(es), programa_m(raiz))
}

proof fn lemma_indice_desde(s: Seq<CaminhoM>, x: CaminhoM, i: int)
    requires
        0 <= i,
    ensures
        match indice_desde(s, x, i) {
            Some(k) => i <= k < s.len() && s[k] == x,
            None => forall|k: int| i <= k < s.len() ==> s[k] != x,
        },
    decreases s.len() - i,
{
    if i < s.len() && s[i] != x {
        lemma_indice_desde(s, x, i + 1);
    }
}

/// When the entry point is among the sources it comes first, and the other
/// sources follow in the order met; when it is not, the order met is kept.
pub proof fn lei_programa_primeiro(raiz: CaminhoM, es: Seq<Entrada>)
    ensures
        fontes_m(es).contains(programa_m(raiz)) ==> ({
            let r = listar_prs_m(raiz, es);
            let k = indice_desde(fontes_m(es), programa_m(raiz), 0).unwrap();
            &&& r.len() == fontes_m(es).len()
            &&& r[0] == programa_m(raiz)
            &&& r.drop_first() == fontes_m(es).remove(k)
        }),
        !fontes_m(es).contains(programa_m(raiz)) ==> listar_prs_m(raiz, es) == fontes_m(es),
{
    let s = fontes_m(es);
    let x = programa_m(raiz);
    lemma_indice_desde(s, x, 0);
    if s.contains(x) {
        let k = indice_desde(s, x, 0).unwrap();
        let r = seq![s[k]] + s.remove(k);
        assert(r.drop_first() =~= s.remove(k));
    }
}

/// Whether the entry's path names a source file.
pub fn eh_nome_fonte(c: &Caminho) -> (r: bool)
    ensures
        r == nome_fonte_m(c@),
{
    match c.nome() {
        Some(n) => tem_extensao(n.as_str(), "pr"),
        None => false,
    }
}

/// The source files of the project at `raiz`, given the entries met walking
/// `<raiz>/src`; `programa.pr` first when present.
pub fn listar_prs(raiz: &Caminho, entradas: &Vec<Entrada>) -> (r: Vec<Caminho>)
    ensures
        vistas(r@) == listar_prs_m(raiz@, entradas@),
{
    let mut fontes: Vec<Caminho> = Vec::new();
    let mut i: usize = 0;
    while i < entradas.len()
        invariant
            i <= entradas@.len(),
            vistas(fontes@) == fontes_m(entradas@.subrange(0, i as int)),
        decreases entradas@.len() - i,
    {
        let e = &entradas[i];
        assert(entradas@.subrange(0, i + 1).drop_last() =~= entradas@.subrange(0, i as int));
        assert(entradas@.subrange(0, i + 1).last() == entradas@[i as int]);
        let ghost antes = vistas(fontes@);
        if e.eh_arquivo && eh_nome_fonte(&e.caminho) {
            fontes.push(e.caminho.copia());
            assert(vistas(fontes@) =~= antes.push(e.caminho@));
        }
        i = i + 1;
    }
    assert(entradas@.subrange(0, i as int) =~= entradas@);
    let ghost fm = vistas(fontes@);
    let preferido = raiz.juntar("src").juntar("programa.pr");
    let mut j: usize = 0;
    while j < fontes.len()
        invariant
            fm == vistas(fontes@),
            fm == fontes_m(entradas@),
            j <= fontes@.len(),
            preferido@ == programa_m(raiz@),
            indice_desde(fm, preferido@, 0) == indice_desde(fm, preferido@, j as int),
        decreases fontes@.len() - j,
    {
        assert(fm[j as int] == fontes@[j as int]@);
        if fontes[j].mesmo(&preferido) {
            assert(indice_desde(fm, preferido@, j as int) == Some(j as int));
            let pref = fontes.remove(j);
            fontes.insert(0, pref);
            assert(vistas(fontes@) =~= seq![fm[j as int]] + fm.remove(j as int));
            return fontes;
        }
        j = j + 1;
    }
    fontes
}

/// How recent, in seconds, a source must be for `listar --recentes`: a day.
pub const UM_DIA: u64 = 86400;

/// Whether a source modified `idade` seconds ago is listed as recent: at
/// most a day old.
pub fn modificado_recentemente(idade: u64) -> (r: bool)
    ensures
        r == (idade <= 86400),
{
    idade <= UM_DIA
}

} // verus!
