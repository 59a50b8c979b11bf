//! Paths as plain values, and the search for a project's root.
use vstd::prelude::*;
use crate::texto::{extensao, tem_extensao, texto_igual};

verus! {

/// A path: the text of its root (`/`, a drive prefix, or empty for a relative
/// path) and the segments pushed onto it, in order.
pub struct Caminho {
    pub raiz: String,
    pub partes: Vec<String>,
}

/// The model of a path: its root text and the text of each segment.
pub type CaminhoM = (Seq<char>, Seq<Seq<char>>);

pub open spec fn partes_m(v: Seq<String>) -> Seq<Seq<char>> {
    v.map_values(|s: String| s@)
}

impl View for Caminho {
    type V = CaminhoM;

    open spec fn view(&self) -> CaminhoM {
        (self.raiz@, partes_m(self.partes@))
    }
}

/// The models of a sequence of paths.
pub open spec fn vistas(v: Seq<Caminho>) -> Seq<CaminhoM> {
    v.map_values(|x: Caminho| x@)
}

/// `c` with one more segment.
pub open spec fn juntar_m(c: CaminhoM, parte: Seq<char>) -> CaminhoM {
    (c.0, c.1.push(parte))
}

/// The path made of a text taken as it stands, as one segment on no root.
pub open spec fn de_texto_m(s: Seq<char>) -> CaminhoM {
    (Seq::empty(), seq![s])
}

/// `c` without its last `k` segments.
pub open spec fn subir_m(c: CaminhoM, k: int) -> CaminhoM {
    (c.0, c.1.subrange(0, c.1.len() - k))
}

/// The path itself and then its successive parents, at most `n` of them in
/// all; the walk stops at the root.
pub open spec fn ancestrais(c: CaminhoM, n: nat) -> Seq<CaminhoM> {
    let m: int = if n <= c.1.len() + 1 { n as int } else { (c.1.len() + 1) as int };
    Seq::new(m as nat, |k: int| subir_m(c, k))
}

/// The last segment of a path, if it has one.
pub open spec fn nome_m(c: CaminhoM) -> Option<Seq<char>> {
    if c.1.len() > 0 { Some(c.1.last()) } else { None }
}

impl Caminho {
    /// A path on `raiz` with the given segments.
    pub fn novo(raiz: String, partes: Vec<String>) -> (r: Caminho)
        ensures
            r.raiz == raiz,
            r.partes == partes,
    {
        Caminho { raiz, partes }
    }

    /// A path given as one text, kept whole as a single segment on no root.
    pub fn de_texto(s: &str) -> (r: Caminho)
        ensures
            r@ == de_texto_m(s@),
    {
        let mut partes: Vec<String> = Vec::new();
        partes.push(String::from_str(s));
        let r = Caminho { raiz: String::new(), partes };
        assert(r@.1 =~= seq![s@]);
        r
    }

    /// A copy of the path.
    pub fn copia(&self) -> (r: Caminho)
        ensures
            r@ == self@,
    {
        let mut partes: Vec<String> = Vec::new();
        let mut i: usize = 0;
        while i < self.partes.len()
            invariant
                i <= self.partes@.len(),
                partes@.len() == i,
                forall|k: int| 0 <= k < i ==> partes@[k]@ == self.partes@[k]@,
            decreases self.partes@.len() - i,
        {
            partes.push(self.partes[i].clone());
            i = i + 1;
        }
        assert(partes_m(partes@) =~= partes_m(self.partes@));
        Caminho { raiz: self.raiz.clone(), partes }
    }

    /// The path with `parte` pushed as one more segment.
    pub fn juntar(&self, parte: &str) -> (r: Caminho)
        ensures
            r@ == juntar_m(self@, parte@),
    {
        let mut r = self.copia();
        r.partes.push(String::from_str(parte));
        assert(r@.1 =~= self@.1.push(parte@));
        r
    }

    /// The parent: the path without its last segment; none at the root.
    pub fn pai(&self) -> (r: Option<Caminho>)
        ensures
            self@.1.len() == 0 ==> r.is_none(),
            self@.1.len() > 0 ==> r.is_some() && r.unwrap()@ == subir_m(self@, 1),
    {
        if self.partes.len() == 0 {
            None
        } else {
            let mut r = self.copia();
            r.partes.pop();
            assert(r@.1 =~= subir_m(self@, 1).1);
            Some(r)
        }
    }

    /// The last segment, if there is one.
    pub fn nome(&self) -> (r: Option<&String>)
        ensures
            match r {
                Some(s) => nome_m(self@) == Some(s@),
                None => nome_m(self@).is_none(),
            },
    {
        if self.partes.len() == 0 {
            None
        } else {
            Some(&self.partes[self.partes.len() - 1])
        }
    }

    /// Whether two paths are the same, root and segments alike.
    pub fn mesmo(&self, outro: &Caminho) -> (r: bool)
        ensures
            r == (self@ == outro@),
    {
        if !texto_igual(self.raiz.as_str(), outro.raiz.as_str()) {
            return false;
        }
        let n = self.partes.len();
        if n != outro.partes.len() {
            assert(self@.1.len() != outro@.1.len());
            return false;
        }
        let mut i: usize = 0;
        while i < n
            invariant
                n == self.partes@.len(),
                n == outro.partes@.len(),
                i <= n,
                forall|j: int| 0 <= j < i ==> self@.1[j] == outro@.1[j],
            decreases n - i,
        {
            if !texto_igual(self.partes[i].as_str(), outro.partes[i].as_str()) {
                assert(self@.1[i as int] != outro@.1[i as int]);
                return false;
            }
            i = i + 1;
        }
        assert(self@.1 =~= outro@.1);
        true
    }
}

/// The path itself and its successive parents, at most `n` of them.
pub fn niveis(c: &Caminho, n: usize) -> (r: Vec<Caminho>)
    ensures
        vistas(r@) == ancestrais(c@, n as nat),
{
    let ghost l = c@.1.len();
    let mut out: Vec<Caminho> = Vec::new();
    let mut atual: Option<Caminho> = Some(c.copia());
    let mut i: usize = 0;
    assert(c@.1.subrange(0, l as int) =~= c@.1);
    while i < n && atual.is_some()
        invariant
            l == c@.1.len(),
            i <= n,
            i <= l + 1,
            atual.is_some() <==> i <= l,
            atual.is_some() ==> atual.unwrap()@ == subir_m(c@, i as int),
            out@.len() == i,
            forall|k: int| 0 <= k < i ==> #[trigger] out@[k]@ == subir_m(c@, k),
        decreases n - i,
    {
        let a = atual.unwrap();
        let proximo = a.pai();
        proof {
            let li: int = l as int - i as int;
            if li > 0 {
                assert(a@.1 == c@.1.subrange(0, li));
                assert(a@.1.len() == li);
                assert(c@.1.subrange(0, li).subrange(0, li - 1) =~= c@.1.subrange(0, li - 1));
            }
        }
        out.push(a);
        atual = proximo;
        i = i + 1;
    }
    assert(vistas(out@) =~= ancestrais(c@, n as nat));
    out
}

/// A copy of each path, in order.
pub fn copia_todos(v: &Vec<Caminho>) -> (r: Vec<Caminho>)
    ensures
        vistas(r@) == vistas(v@),
{
    let mut out: Vec<Caminho> = Vec::new();
    let mut i: usize = 0;
    while i < v.len()
        invariant
            i <= v@.len(),
            out@.len() == i,
            forall|k: int| 0 <= k < i ==> #[trigger] out@[k]@ == v@[k]@,
        decreases v@.len() - i,
    {
        out.push(v[i].copia());
        i = i + 1;
    }
    assert(vistas(out@) =~= vistas(v@));
    out
}

/// The extension of the path's last segment, if it has one.
pub open spec fn extensao_m(c: CaminhoM) -> Option<Seq<char>> {
    match nome_m(c) {
        Some(n) => extensao(n),
        None => None,
    }
}

/// Whether the path's last segment has exactly the extension `ext`.
pub fn tem_extensao_caminho(c: &Caminho, ext: &str) -> (r: bool)
    ensures
        r == (extensao_m(c@) == Some(ext@)),
{
    match c.nome() {
        Some(n) => tem_extensao(n.as_str(), ext),
        None => false,
    }
}

/// How many levels the search for a project's root looks at.
pub const NIVEIS_RAIZ: usize = 5;

/// The directories where the search for a root starts and goes on: the
/// given path (its parent, for a file), then its parents, five at most.
pub open spec fn niveis_raiz_m(c: CaminhoM, eh_arquivo: bool) -> Seq<CaminhoM> {
    ancestrais(inicio_m(c, eh_arquivo), 5)
}

/// The first index whose answer is yes, looking from `i` on.
pub open spec fn primeiro_sim(v: Seq<bool>, i: int) -> Option<int>
    decreases v.len() - i,
{
    if i < 0 || i >= v.len() {
        None
    } else if v[i] {
        Some(i)
    } else {
        primeiro_sim(v, i + 1)
    }
}

/// The answers for `n` levels, a missing one counting as no.
pub open spec fn respostas(tem_src: Seq<bool>, n: nat) -> Seq<bool> {
    Seq::new(n, |k: int| k < tem_src.len() && tem_src[k])
}

/// The root found for `c`: the first level whose answer is yes (a missing
/// answer counts as no); `c` itself when there is none.
pub open spec fn raiz_m(c: CaminhoM, eh_arquivo: bool, tem_src: Seq<bool>) -> CaminhoM {
    let nv = niveis_raiz_m(c, eh_arquivo);
    let v = respostas(tem_src, nv.len());
    match primeiro_sim(v, 0) {
        Some(k) => nv[k],
        None => c,
    }
}

/// The levels that `localizar_raiz` looks at, in order, for an absolute path
/// `caminho` that is a file or not.
pub fn niveis_raiz(caminho: &Caminho, eh_arquivo: bool) -> (r: Vec<Caminho>)
    ensures
        vistas(r@) == niveis_raiz_m(caminho@, eh_arquivo),
{
    if eh_arquivo {
        match caminho.pai() {
            Some(p) => niveis(&p, NIVEIS_RAIZ),
            None => niveis(caminho, NIVEIS_RAIZ),
        }
    } else {
        niveis(caminho, NIVEIS_RAIZ)
    }
}

/// The project root of an absolute path: the first of its levels (see
/// `niveis_raiz`) that holds a `src` directory, where `tem_src[k]` says
/// whether level `k` does; the path itself when none does.
pub fn localizar_raiz(caminho: &Caminho, eh_arquivo: bool, tem_src: &Vec<bool>) -> (r: Caminho)
    ensures
        r@ == raiz_m(caminho@, eh_arquivo, tem_src@),
{
    reveal_with_fuel(primeiro_sim, 2);
    let nv = niveis_raiz(caminho, eh_arquivo);
    let ghost nvm = niveis_raiz_m(caminho@, eh_arquivo);
    let ghost v = respostas(tem_src@, nvm.len());
    let mut i: usize = 0;
    while i < nv.len()
        invariant
            vistas(nv@) == nvm,
            nvm == niveis_raiz_m(caminho@, eh_arquivo),
            v == respostas(tem_src@, nvm.len()),
            v.len() == nvm.len(),
            forall|k: int| 0 <= k < v.len() ==> v[k] == (k < tem_src@.len() && tem_src@[k]),
            i <= nv@.len(),
            primeiro_sim(v, 0) == primeiro_sim(v, i as int),
        decreases nv@.len() - i,
    {
        assert(vistas(nv@)[i as int] == nv@[i as int]@);
        if i < tem_src.len() && tem_src[i] {
            assert(v[i as int]);
            assert(primeiro_sim(v, i as int) == Some(i as int));
            return nv[i].copia();
        }
        i = i + 1;
    }
    caminho.copia()
}

proof fn lemma_primeiro_sim(v: Seq<bool>, i: int, d: int)
    requires
        0 <= i <= d < v.len(),
        v[d],
        forall|k: int| i <= k < d ==> !v[k],
    ensures
        primeiro_sim(v, i) == Some(d),
    decreases d - i,
{
    if i < d {
        lemma_primeiro_sim(v, i + 1, d);
    }
}

/// Where the search for a root starts: the path, or its parent for a file.
pub open spec fn inicio_m(c: CaminhoM, eh_arquivo: bool) -> CaminhoM {
    if eh_arquivo && c.1.len() > 0 { subir_m(c, 1) } else { c }
}

/// Given any path inside a project, the root found is the project's
/// directory, so long as that directory is the one level within reach of the
/// search (it lies `d` levels above where the search starts, `d` under five)
/// that holds `src`; `tem_src` says which directories hold one.
pub proof fn lei_raiz_unica(
    c: CaminhoM,
    eh_arquivo: bool,
    tem_src: spec_fn(CaminhoM) -> bool,
    d: int,
)
    requires
        0 <= d < 5,
        d <= inicio_m(c, eh_arquivo).1.len(),
        tem_src(subir_m(inicio_m(c, eh_arquivo), d)),
        forall|j: int|
            0 <= j < 5 && j <= inicio_m(c, eh_arquivo).1.len() && j != d ==> !tem_src(
                #[trigger] subir_m(inicio_m(c, eh_arquivo), j),
            ),
    ensures
        raiz_m(c, eh_arquivo, niveis_raiz_m(c, eh_arquivo).map_values(tem_src))
            == subir_m(inicio_m(c, eh_arquivo), d),
{
    let nv = niveis_raiz_m(c, eh_arquivo);
    let b = inicio_m(c, eh_arquivo);
    let v = respostas(nv.map_values(tem_src), nv.len());
    assert forall|k: int| 0 <= k < nv.len() implies v[k] == tem_src(subir_m(b, k)) by {}
    lemma_primeiro_sim(v, 0, d);
}

} // verus!
