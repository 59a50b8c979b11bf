//! Snapshots of what the resolution reads from outside: the process
//! environment, and the answers of the filesystem to the probes it needs.
use vstd::prelude::*;
use crate::caminho::{Caminho, CaminhoM, juntar_m, nome_m};
use crate::texto::{aparado, aparar, texto_igual};

verus! {

/// One environment variable.
pub struct Variavel {
    pub nome: String,
    pub valor: String,
}

/// The environment that the resolution reads.
pub struct Ambiente {
    /// The process's environment variables.
    pub variaveis: Vec<Variavel>,
    /// The path of the running executable, when it is known.
    pub executavel: Option<Caminho>,
    /// Whether executables carry the `.exe` extension on this platform.
    pub windows: bool,
}

/// The result of searching the executable search path for a program name.
pub struct Programa {
    pub nome: String,
    pub caminho: Caminho,
}

/// What the filesystem answered: the paths known to be regular files, those
/// known to be directories, and where programs were found on the search path.
/// Anything not listed is taken to be absent.
pub struct Disco {
    pub arquivos: Vec<Caminho>,
    pub diretorios: Vec<Caminho>,
    pub programas: Vec<Programa>,
}

/// The value of the first variable named `nome`, looking from index `i` on.
pub open spec fn valor_desde(vs: Seq<Variavel>, nome: Seq<char>, i: int) -> Option<Seq<char>>
    decreases vs.len() - i,
{
    if i < 0 || i >= vs.len() {
        None
    } else if vs[i].nome@ == nome {
        Some(vs[i].valor@)
    } else {
        valor_desde(vs, nome, i + 1)
    }
}

/// A variable's value read as a path: trimmed, and absent when empty.
pub open spec fn como_caminho(v: Option<Seq<char>>) -> Option<Seq<char>> {
    match v {
        Some(s) => if aparado(s).len() == 0 { None } else { Some(aparado(s)) },
        None => None,
    }
}

/// The path that the environment variable `nome` gives, if any.
pub open spec fn var_m(amb: &Ambiente, nome: Seq<char>) -> Option<Seq<char>> {
    como_caminho(valor_desde(amb.variaveis@, nome, 0))
}

pub open spec fn contem_m(v: Seq<Caminho>, p: CaminhoM) -> bool {
    exists|i: int| 0 <= i < v.len() && #[trigger] v[i]@ == p
}

pub open spec fn eh_arquivo_m(d: &Disco, p: CaminhoM) -> bool {
    contem_m(d.arquivos@, p)
}

pub open spec fn eh_diretorio_m(d: &Disco, p: CaminhoM) -> bool {
    contem_m(d.diretorios@, p)
}

/// A standard library lives in a directory that holds a `Sistema.toml`
/// manifest or a `src` directory.
pub open spec fn stdlib_valida_m(d: &Disco, p: CaminhoM) -> bool {
    eh_diretorio_m(d, p) && (eh_arquivo_m(d, juntar_m(p, "Sistema.toml"@)) || eh_diretorio_m(
        d,
        juntar_m(p, "src"@),
    ))
}

/// Where the search path gave the program `nome`, looking from index `i` on.
pub open spec fn programa_desde(ps: Seq<Programa>, nome: Seq<char>, i: int) -> Option<CaminhoM>
    decreases ps.len() - i,
{
    if i < 0 || i >= ps.len() {
        None
    } else if ps[i].nome@ == nome {
        Some(ps[i].caminho@)
    } else {
        programa_desde(ps, nome, i + 1)
    }
}

/// Where the search path gives the program named by the last segment of `p`.
pub open spec fn programa_m(d: &Disco, p: CaminhoM) -> Option<CaminhoM> {
    match nome_m(p) {
        Some(n) => programa_desde(d.programas@, n, 0),
        None => None,
    }
}

/// The raw value of the variable `nome`.
pub fn valor_variavel<'a>(amb: &'a Ambiente, nome: &str) -> (r: Option<&'a String>)
    ensures
        match r {
            Some(s) => valor_desde(amb.variaveis@, nome@, 0) == Some(s@),
            None => valor_desde(amb.variaveis@, nome@, 0).is_none(),
        },
{
    let mut i: usize = 0;
    while i < amb.variaveis.len()
        invariant
            i <= amb.variaveis@.len(),
            valor_desde(amb.variaveis@, nome@, 0) == valor_desde(amb.variaveis@, nome@, i as int),
        decreases amb.variaveis@.len() - i,
    {
        if texto_igual(amb.variaveis[i].nome.as_str(), nome) {
            return Some(&amb.variaveis[i].valor);
        }
        i = i + 1;
    }
    None
}

/// The path that the variable `nome` holds: its value trimmed, none when
/// the variable is unset or blank.
pub fn ler_env_path(amb: &Ambiente, nome: &str) -> (r: Option<String>)
    ensures
        match r {
            Some(s) => var_m(amb, nome@) == Some(s@),
            None => var_m(amb, nome@).is_none(),
        },
{
    match valor_variavel(amb, nome) {
        Some(v) => {
            let t = aparar(v.as_str());
            if t.as_str().unicode_len() == 0 {
                None
            } else {
                Some(t)
            }
        },
        None => None,
    }
}

/// Whether `p` is among the listed paths.
pub fn contem(v: &Vec<Caminho>, p: &Caminho) -> (r: bool)
    ensures
        r == contem_m(v@, p@),
{
    let mut i: usize = 0;
    while i < v.len()
        invariant
            i <= v@.len(),
            forall|j: int| 0 <= j < i ==> v@[j]@ != p@,
        decreases v@.len() - i,
    {
        if v[i].mesmo(p) {
            return true;
        }
        i = i + 1;
    }
    false
}

impl Disco {
    /// Whether `p` is a regular file.
    pub fn eh_arquivo(&self, p: &Caminho) -> (r: bool)
        ensures
            r == eh_arquivo_m(self, p@),
    {
        contem(&self.arquivos, p)
    }

    /// Whether `p` is a directory.
    pub fn eh_diretorio(&self, p: &Caminho) -> (r: bool)
        ensures
            r == eh_diretorio_m(self, p@),
    {
        contem(&self.diretorios, p)
    }

    /// Where the search path gives the program named by `p`'s last segment.
    pub fn programa(&self, p: &Caminho) -> (r: Option<Caminho>)
        ensures
            match r {
                Some(c) => programa_m(self, p@) == Some(c@),
                None => programa_m(self, p@).is_none(),
            },
    {
        let nome = match p.nome() {
            Some(n) => n,
            None => return None,
        };
        let mut i: usize = 0;
        while i < self.programas.len()
            invariant
                i <= self.programas@.len(),
                nome_m(p@) == Some(nome@),
                programa_desde(self.programas@, nome@, 0) == programa_desde(
                    self.programas@,
                    nome@,
                    i as int,
                ),
            decreases self.programas@.len() - i,
        {
            if texto_igual(self.programas[i].nome.as_str(), nome.as_str()) {
                return Some(self.programas[i].caminho.copia());
            }
            i = i + 1;
        }
        None
    }
}

/// Whether `p` holds a standard library.
pub fn eh_stdlib_valida(d: &Disco, p: &Caminho) -> (r: bool)
    ensures
        r == stdlib_valida_m(d, p@),
{
    d.eh_diretorio(p) && (d.eh_arquivo(&p.juntar("Sistema.toml")) || d.eh_diretorio(
        &p.juntar("src"),
    ))
}

} // verus!
