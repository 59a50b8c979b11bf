//! Locating the compiler, the interpreter and the standard library, with a
//! diagnosis of where each was found or why it was not.
use vstd::prelude::*;
use crate::ambiente::{
    Ambiente, Disco, eh_arquivo_m, eh_stdlib_valida, ler_env_path, programa_m, stdlib_valida_m,
    var_m,
};
use crate::texto::{caracteres, eh_digito, eh_digito_exec};
use crate::caminho::{Caminho, CaminhoM, ancestrais, de_texto_m, juntar_m, niveis, subir_m, vistas};

verus! {

/// The tiers of the search, in the order in which they are tried.
#[derive(PartialEq, Eq, Structural, Clone, Copy, Debug)]
pub enum Camada {
    /// An environment variable naming the path outright.
    Variavel,
    /// The `tools` directory beside the running executable or one level up.
    Instalacao,
    /// The `tools` directory of the installation root `PORDOSOL_HOME`.
    Home,
    /// The executable search path.
    Busca,
    /// The `lib` directories of the project and of its parents.
    Local,
}

/// How a candidate is checked.
#[derive(PartialEq, Eq, Structural, Clone, Copy, Debug)]
pub enum Sonda {
    /// The path must be a regular file.
    Arquivo,
    /// The path must be a standard library directory.
    Stdlib,
    /// The last segment is a program name looked up on the search path.
    Programa,
}

/// One candidate of the search, with the origin reported when it is taken
/// and the one reported when it is the first to fail.
pub struct Tentativa {
    pub caminho: Caminho,
    pub sonda: Sonda,
    pub camada: Camada,
    pub origem: String,
    pub origem_falha: String,
}

pub type TentativaM = (CaminhoM, Sonda, Camada, Seq<char>, Seq<char>);

impl View for Tentativa {
    type V = TentativaM;

    open spec fn view(&self) -> TentativaM {
        (self.caminho@, self.sonda, self.camada, self.origem@, self.origem_falha@)
    }
}

pub open spec fn vistas_t(v: Seq<Tentativa>) -> Seq<TentativaM> {
    v.map_values(|t: Tentativa| t@)
}

/// What the search found for one tool.
pub struct DiagnosticoFerramenta {
    pub nome: String,
    pub caminho: Caminho,
    pub origem: String,
    pub encontrado: bool,
}

pub type DiagnosticoM = (Seq<char>, CaminhoM, Seq<char>, bool);

impl View for DiagnosticoFerramenta {
    type V = DiagnosticoM;

    open spec fn view(&self) -> DiagnosticoM {
        (self.nome@, self.caminho@, self.origem@, self.encontrado)
    }
}

/// The diagnosis of the whole toolchain.
pub struct DiagnosticoToolchain {
    pub compilador: DiagnosticoFerramenta,
    pub interpretador: DiagnosticoFerramenta,
    pub stdlib: DiagnosticoFerramenta,
}

impl DiagnosticoToolchain {
    /// Ready when all three tools were found.
    pub fn pronto(&self) -> (r: bool)
        ensures
            r == (self.compilador.encontrado && self.interpretador.encontrado
                && self.stdlib.encontrado),
    {
        self.compilador.encontrado && self.interpretador.encontrado && self.stdlib.encontrado
    }
}

/// Where a candidate is found, if it is.
pub open spec fn achado_m(d: &Disco, t: TentativaM) -> Option<CaminhoM> {
    match t.1 {
        Sonda::Arquivo => if eh_arquivo_m(d, t.0) { Some(t.0) } else { None },
        Sonda::Stdlib => if stdlib_valida_m(d, t.0) { Some(t.0) } else { None },
        Sonda::Programa => programa_m(d, t.0),
    }
}

/// The first candidate found, looking from index `i` on.
pub open spec fn primeiro_achado(ts: Seq<TentativaM>, d: &Disco, i: int) -> Option<int>
    decreases ts.len() - i,
{
    if i < 0 || i >= ts.len() {
        None
    } else if achado_m(d, ts[i]) is Some {
        Some(i)
    } else {
        primeiro_achado(ts, d, i + 1)
    }
}

/// The outcome of a search: the first candidate found, with its origin; when
/// none is, the first candidate with its failure origin, so that the report
/// does not depend on how far the search went; `reserva` when there was no
/// candidate at all.
pub open spec fn resolucao_m(
    nome: Seq<char>,
    ts: Seq<TentativaM>,
    d: &Disco,
    reserva: DiagnosticoM,
) -> DiagnosticoM {
    match primeiro_achado(ts, d, 0) {
        Some(i) => (nome, achado_m(d, ts[i]).unwrap(), ts[i].3, true),
        None => if ts.len() > 0 { (nome, ts[0].0, ts[0].4, false) } else { reserva },
    }
}

/// The file name of an executable on the platform.
pub open spec fn nome_executavel_m(nome: Seq<char>, windows: bool) -> Seq<char> {
    if windows { nome + ".exe"@ } else { nome }
}

/// `<base>/tools/<nome>`.
pub open spec fn tools_m(base: CaminhoM, nome: Seq<char>) -> CaminhoM {
    juntar_m(juntar_m(base, "tools"@), nome)
}

/// The `tools` candidates beside the running executable: in its directory,
/// and in that directory's parent.
pub open spec fn tools_instalacao_m(exe: Option<CaminhoM>, nome: Seq<char>) -> Seq<CaminhoM> {
    match exe {
        Some(e) => if e.1.len() > 0 {
            let base = subir_m(e, 1);
            if base.1.len() > 0 {
                seq![tools_m(base, nome), tools_m(subir_m(base, 1), nome)]
            } else {
                seq![tools_m(base, nome)]
            }
        } else {
            Seq::empty()
        },
        None => Seq::empty(),
    }
}

/// `<PORDOSOL_HOME>/tools/<nome>`, when that variable is set.
pub open spec fn home_tools_m(amb: &Ambiente, nome: Seq<char>) -> Option<CaminhoM> {
    match var_m(amb, "PORDOSOL_HOME"@) {
        Some(h) => Some(tools_m(de_texto_m(h), nome)),
        None => None,
    }
}

/// `<level>/lib/<nome>` for the project root and up to five parents.
pub open spec fn lib_local_m(raiz: CaminhoM, nome: Seq<char>) -> Seq<CaminhoM> {
    ancestrais(raiz, 6).map_values(|a: CaminhoM| juntar_m(juntar_m(a, "lib"@), nome))
}

/// The four places a standard library may sit at one level.
pub open spec fn stdlib_nivel_m(a: CaminhoM) -> Seq<CaminhoM> {
    seq![
        juntar_m(juntar_m(a, "lib"@), "stdlib"@),
        juntar_m(juntar_m(a, "lib"@), "sistema-padrao"@),
        juntar_m(a, "stdlib"@),
        juntar_m(a, "sistema-padrao"@),
    ]
}

pub open spec fn stdlib_niveis_m(niveis: Seq<CaminhoM>) -> Seq<CaminhoM>
    decreases niveis.len(),
{
    if niveis.len() == 0 {
        Seq::empty()
    } else {
        stdlib_niveis_m(niveis.drop_last()) + stdlib_nivel_m(niveis.last())
    }
}

/// The standard library's places at the project root and up to five parents.
pub open spec fn stdlib_local_m(raiz: CaminhoM) -> Seq<CaminhoM> {
    stdlib_niveis_m(ancestrais(raiz, 6))
}

/// Candidates at the given paths, all of one tier.
pub open spec fn como_tentativas(
    ps: Seq<CaminhoM>,
    sonda: Sonda,
    camada: Camada,
    origem: Seq<char>,
    falha: Seq<char>,
) -> Seq<TentativaM> {
    ps.map_values(|p: CaminhoM| (p, sonda, camada, origem, falha))
}

/// The candidate taken from the variable `var`, if it is set.
pub open spec fn tentativa_variavel_m(amb: &Ambiente, var: Seq<char>, sonda: Sonda) -> Seq<
    TentativaM,
> {
    match var_m(amb, var) {
        Some(p) => seq![
            (de_texto_m(p), sonda, Camada::Variavel, "env:"@ + var, "env:"@ + var + " (invalido)"@),
        ],
        None => Seq::empty(),
    }
}

/// The candidate under `PORDOSOL_HOME`, if it is set.
pub open spec fn tentativa_home_m(amb: &Ambiente, nome: Seq<char>, sonda: Sonda, origem: Seq<char>) -> Seq<
    TentativaM,
> {
    match home_tools_m(amb, nome) {
        Some(p) => seq![(p, sonda, Camada::Home, origem, origem + " (ausente)"@)],
        None => Seq::empty(),
    }
}

/// Every candidate for the executable `nome_base`, in the order tried.
pub open spec fn tentativas_executavel_m(
    nome_base: Seq<char>,
    var: Seq<char>,
    amb: &Ambiente,
    raiz: CaminhoM,
) -> Seq<TentativaM> {
    let ne = nome_executavel_m(nome_base, amb.windows);
    let exe = match amb.executavel {
        Some(e) => Some(e@),
        None => None,
    };
    tentativa_variavel_m(amb, var, Sonda::Arquivo) + como_tentativas(
        tools_instalacao_m(exe, ne),
        Sonda::Arquivo,
        Camada::Instalacao,
        "instalacao-cli/tools"@,
        "instalacao-cli/tools (ausente)"@,
    ) + tentativa_home_m(amb, ne, Sonda::Arquivo, "env:PORDOSOL_HOME/tools"@) + seq![
        (de_texto_m(ne), Sonda::Programa, Camada::Busca, "PATH"@, "PATH"@),
    ] + como_tentativas(
        lib_local_m(raiz, ne),
        Sonda::Arquivo,
        Camada::Local,
        "fallback:./lib"@,
        "fallback:./lib (ausente)"@,
    )
}

/// Every candidate for the standard library, in the order tried.
pub open spec fn tentativas_stdlib_m(amb: &Ambiente, raiz: CaminhoM) -> Seq<TentativaM> {
    let exe = match amb.executavel {
        Some(e) => Some(e@),
        None => None,
    };
    tentativa_variavel_m(amb, "PORDOSOL_STDLIB_PATH"@, Sonda::Stdlib) + tentativa_variavel_m(
        amb,
        "PORDOSOL_BIBLIOTECA_PADRAO_PATH"@,
        Sonda::Stdlib,
    ) + como_tentativas(
        tools_instalacao_m(exe, "stdlib"@),
        Sonda::Stdlib,
        Camada::Instalacao,
        "instalacao-cli/tools/stdlib"@,
        "instalacao-cli/tools/stdlib (ausente)"@,
    ) + como_tentativas(
        tools_instalacao_m(exe, "sistema-padrao"@),
        Sonda::Stdlib,
        Camada::Instalacao,
        "instalacao-cli/tools/sistema-padrao"@,
        "instalacao-cli/tools/sistema-padrao (ausente)"@,
    ) + tentativa_home_m(amb, "stdlib"@, Sonda::Stdlib, "env:PORDOSOL_HOME/tools/stdlib"@)
        + tentativa_home_m(
        amb,
        "sistema-padrao"@,
        Sonda::Stdlib,
        "env:PORDOSOL_HOME/tools/sistema-padrao"@,
    ) + como_tentativas(
        stdlib_local_m(raiz),
        Sonda::Stdlib,
        Camada::Local,
        "fallback:local"@,
        "fallback:local (ausente)"@,
    )
}

/// The name under which the standard library is reported.
pub open spec fn nome_stdlib_m() -> Seq<char> {
    "biblioteca padrao"@
}

/// The diagnosis of the executable `nome_base`.
pub open spec fn executavel_m(
    nome_base: Seq<char>,
    var: Seq<char>,
    amb: &Ambiente,
    d: &Disco,
    raiz: CaminhoM,
) -> DiagnosticoM {
    resolucao_m(
        nome_base,
        tentativas_executavel_m(nome_base, var, amb, raiz),
        d,
        (nome_base, de_texto_m(nome_executavel_m(nome_base, amb.windows)), "nao resolvido"@, false),
    )
}

/// The diagnosis of the standard library.
pub open spec fn stdlib_m(amb: &Ambiente, d: &Disco, raiz: CaminhoM) -> DiagnosticoM {
    resolucao_m(
        nome_stdlib_m(),
        tentativas_stdlib_m(amb, raiz),
        d,
        (nome_stdlib_m(), juntar_m(raiz, "sistema-padrao"@), "nao resolvido"@, false),
    )
}

/// The file name of an executable: `nome`, with `.exe` on Windows.
pub fn nome_executavel(nome: &str, windows: bool) -> (r: String)
    ensures
        r@ == nome_executavel_m(nome@, windows),
{
    if windows {
        String::from_str(nome).concat(".exe")
    } else {
        String::from_str(nome)
    }
}

/// A tool found at `caminho`.
pub fn ok(nome: &str, caminho: Caminho, origem: String) -> (r: DiagnosticoFerramenta)
    ensures
        r@ == (nome@, caminho@, origem@, true),
{
    DiagnosticoFerramenta { nome: String::from_str(nome), caminho, origem, encontrado: true }
}

/// A tool not found, reported at `caminho`.
pub fn falha(nome: &str, caminho: Caminho, origem: String) -> (r: DiagnosticoFerramenta)
    ensures
        r@ == (nome@, caminho@, origem@, false),
{
    DiagnosticoFerramenta { nome: String::from_str(nome), caminho, origem, encontrado: false }
}

/// The `tools` candidates beside the running executable `exe`.
pub fn caminhos_tools_instalacao(exe: &Option<Caminho>, nome: &str) -> (r: Vec<Caminho>)
    ensures
        vistas(r@) == tools_instalacao_m(
            match exe {
                Some(e) => Some(e@),
                None => None,
            },
            nome@,
        ),
{
    let mut out: Vec<Caminho> = Vec::new();
    if let Some(e) = exe {
        if let Some(base) = e.pai() {
            out.push(base.juntar("tools").juntar(nome));
            if let Some(pai) = base.pai() {
                out.push(pai.juntar("tools").juntar(nome));
            }
        }
    }
    assert(vistas(out@) =~= tools_instalacao_m(
        match exe {
            Some(e) => Some(e@),
            None => None,
        },
        nome@,
    ));
    out
}

/// `<PORDOSOL_HOME>/tools/<nome>`, when that variable is set.
pub fn caminho_pordosol_home_tools(amb: &Ambiente, nome: &str) -> (r: Option<Caminho>)
    ensures
        match r {
            Some(c) => home_tools_m(amb, nome@) == Some(c@),
            None => home_tools_m(amb, nome@).is_none(),
        },
{
    match ler_env_path(amb, "PORDOSOL_HOME") {
        Some(h) => Some(Caminho::de_texto(h.as_str()).juntar("tools").juntar(nome)),
        None => None,
    }
}

/// `<level>/lib/<nome_exec>` for the root and up to five of its parents.
pub fn candidatos_lib_local(raiz: &Caminho, nome_exec: &str) -> (r: Vec<Caminho>)
    ensures
        vistas(r@) == lib_local_m(raiz@, nome_exec@),
{
    let nv = niveis(raiz, 6);
    let ghost anc = ancestrais(raiz@, 6);
    let mut out: Vec<Caminho> = Vec::new();
    let mut i: usize = 0;
    while i < nv.len()
        invariant
            vistas(nv@) == anc,
            anc == ancestrais(raiz@, 6),
            i <= nv@.len(),
            out@.len() == i,
            forall|k: int|
                0 <= k < i ==> #[trigger] out@[k]@ == juntar_m(juntar_m(anc[k], "lib"@), nome_exec@),
        decreases nv@.len() - i,
    {
        assert(vistas(nv@)[i as int] == nv@[i as int]@);
        out.push(nv[i].juntar("lib").juntar(nome_exec));
        i = i + 1;
    }
    assert(vistas(out@) =~= lib_local_m(raiz@, nome_exec@));
    out
}

/// The standard library's places at the root and up to five of its parents:
/// `lib/stdlib`, `lib/sistema-padrao`, `stdlib`, `sistema-padrao`, level by
/// level.
pub fn candidatos_stdlib_local(raiz: &Caminho) -> (r: Vec<Caminho>)
    ensures
        vistas(r@) == stdlib_local_m(raiz@),
{
    let nv = niveis(raiz, 6);
    let ghost anc = ancestrais(raiz@, 6);
    let mut out: Vec<Caminho> = Vec::new();
    let mut i: usize = 0;
    assert(anc.subrange(0, 0) =~= Seq::<CaminhoM>::empty());
    assert(vistas(out@) =~= Seq::<CaminhoM>::empty());
    while i < nv.len()
        invariant
            vistas(nv@) == anc,
            anc == ancestrais(raiz@, 6),
            i <= nv@.len(),
            vistas(out@) == stdlib_niveis_m(anc.subrange(0, i as int)),
        decreases nv@.len() - i,
    {
        assert(vistas(nv@)[i as int] == nv@[i as int]@);
        let a = &nv[i];
        let ghost antes = vistas(out@);
        let lib = a.juntar("lib");
        out.push(lib.juntar("stdlib"));
        out.push(lib.juntar("sistema-padrao"));
        out.push(a.juntar("stdlib"));
        out.push(a.juntar("sistema-padrao"));
        assert(anc.subrange(0, i + 1).drop_last() =~= anc.subrange(0, i as int));
        assert(vistas(out@) =~= antes + stdlib_nivel_m(anc[i as int]));
        i = i + 1;
    }
    assert(anc.subrange(0, i as int) =~= anc);
    out
}

/// Adds one candidate per path, all of one tier.
fn acrescentar(
    ts: &mut Vec<Tentativa>,
    ps: Vec<Caminho>,
    sonda: Sonda,
    camada: Camada,
    origem: &str,
    falha: &str,
)
    ensures
        vistas_t(final(ts)@) == vistas_t(old(ts)@) + como_tentativas(
            vistas(ps@),
            sonda,
            camada,
            origem@,
            falha@,
        ),
{
    let ghost inicio = vistas_t(ts@);
    let ghost todos = vistas(ps@);
    let mut i: usize = 0;
    while i < ps.len()
        invariant
            todos == vistas(ps@),
            i <= ps@.len(),
            vistas_t(ts@) == inicio + como_tentativas(
                todos.subrange(0, i as int),
                sonda,
                camada,
                origem@,
                falha@,
            ),
        decreases ps@.len() - i,
    {
        assert(todos[i as int] == ps@[i as int]@);
        let ghost antes = vistas_t(ts@);
        ts.push(
            Tentativa {
                caminho: ps[i].copia(),
                sonda,
                camada,
                origem: String::from_str(origem),
                origem_falha: String::from_str(falha),
            },
        );
        assert(vistas_t(ts@) =~= antes.push((todos[i as int], sonda, camada, origem@, falha@)));
        assert(como_tentativas(todos.subrange(0, i + 1), sonda, camada, origem@, falha@)
            =~= como_tentativas(todos.subrange(0, i as int), sonda, camada, origem@, falha@).push(
            (todos[i as int], sonda, camada, origem@, falha@),
        ));
        i = i + 1;
        assert(vistas_t(ts@) =~= inicio + como_tentativas(
            todos.subrange(0, i as int),
            sonda,
            camada,
            origem@,
            falha@,
        ));
    }
    assert(todos.subrange(0, i as int) =~= todos);
}

/// Adds the candidate that the variable `var` names, if it is set.
fn tentativa_variavel(ts: &mut Vec<Tentativa>, amb: &Ambiente, var: &str, sonda: Sonda)
    ensures
        vistas_t(final(ts)@) == vistas_t(old(ts)@) + tentativa_variavel_m(amb, var@, sonda),
{
    if let Some(p) = ler_env_path(amb, var) {
        let origem = String::from_str("env:").concat(var);
        let origem_falha = String::from_str("env:").concat(var).concat(" (invalido)");
        ts.push(
            Tentativa {
                caminho: Caminho::de_texto(p.as_str()),
                sonda,
                camada: Camada::Variavel,
                origem,
                origem_falha,
            },
        );
    }
    assert(vistas_t(ts@) =~= vistas_t(old(ts)@) + tentativa_variavel_m(amb, var@, sonda));
}

/// Adds the candidate under `PORDOSOL_HOME`, if it is set.
fn tentativa_home(ts: &mut Vec<Tentativa>, amb: &Ambiente, nome: &str, sonda: Sonda, origem: &str)
    ensures
        vistas_t(final(ts)@) == vistas_t(old(ts)@) + tentativa_home_m(amb, nome@, sonda, origem@),
{
    if let Some(p) = caminho_pordosol_home_tools(amb, nome) {
        ts.push(
            Tentativa {
                caminho: p,
                sonda,
                camada: Camada::Home,
                origem: String::from_str(origem),
                origem_falha: String::from_str(origem).concat(" (ausente)"),
            },
        );
    }
    assert(vistas_t(ts@) =~= vistas_t(old(ts)@) + tentativa_home_m(amb, nome@, sonda, origem@));
}

/// Every candidate for the executable `nome_base` overridden by the
/// variable `variavel_env`, in the order tried.
pub fn tentativas_executavel(nome_base: &str, variavel_env: &str, amb: &Ambiente, raiz: &Caminho) -> (r: Vec<Tentativa>)
    ensures
        vistas_t(r@) == tentativas_executavel_m(nome_base@, variavel_env@, amb, raiz@),
{
    let nome_exec = nome_executavel(nome_base, amb.windows);
    let mut ts: Vec<Tentativa> = Vec::new();
    assert(vistas_t(ts@) =~= Seq::<TentativaM>::empty());
    tentativa_variavel(&mut ts, amb, variavel_env, Sonda::Arquivo);
    acrescentar(
        &mut ts,
        caminhos_tools_instalacao(&amb.executavel, nome_exec.as_str()),
        Sonda::Arquivo,
        Camada::Instalacao,
        "instalacao-cli/tools",
        "instalacao-cli/tools (ausente)",
    );
    tentativa_home(&mut ts, amb, nome_exec.as_str(), Sonda::Arquivo, "env:PORDOSOL_HOME/tools");
    let ghost antes = vistas_t(ts@);
    ts.push(
        Tentativa {
            caminho: Caminho::de_texto(nome_exec.as_str()),
            sonda: Sonda::Programa,
            camada: Camada::Busca,
            origem: String::from_str("PATH"),
            origem_falha: String::from_str("PATH"),
        },
    );
    assert(vistas_t(ts@) =~= antes + seq![
        (de_texto_m(nome_exec@), Sonda::Programa, Camada::Busca, "PATH"@, "PATH"@),
    ]);
    acrescentar(
        &mut ts,
        candidatos_lib_local(raiz, nome_exec.as_str()),
        Sonda::Arquivo,
        Camada::Local,
        "fallback:./lib",
        "fallback:./lib (ausente)",
    );
    ts
}

/// Every candidate for the standard library, in the order tried.
pub fn tentativas_stdlib(amb: &Ambiente, raiz: &Caminho) -> (r: Vec<Tentativa>)
    ensures
        vistas_t(r@) == tentativas_stdlib_m(amb, raiz@),
{
    let mut ts: Vec<Tentativa> = Vec::new();
    assert(vistas_t(ts@) =~= Seq::<TentativaM>::empty());
    tentativa_variavel(&mut ts, amb, "PORDOSOL_STDLIB_PATH", Sonda::Stdlib);
    tentativa_variavel(&mut ts, amb, "PORDOSOL_BIBLIOTECA_PADRAO_PATH", Sonda::Stdlib);
    acrescentar(
        &mut ts,
        caminhos_tools_instalacao(&amb.executavel, "stdlib"),
        Sonda::Stdlib,
        Camada::Instalacao,
        "instalacao-cli/tools/stdlib",
        "instalacao-cli/tools/stdlib (ausente)",
    );
    acrescentar(
        &mut ts,
        caminhos_tools_instalacao(&amb.executavel, "sistema-padrao"),
        Sonda::Stdlib,
        Camada::Instalacao,
        "instalacao-cli/tools/sistema-padrao",
        "instalacao-cli/tools/sistema-padrao (ausente)",
    );
    tentativa_home(&mut ts, amb, "stdlib", Sonda::Stdlib, "env:PORDOSOL_HOME/tools/stdlib");
    tentativa_home(
        &mut ts,
        amb,
        "sistema-padrao",
        Sonda::Stdlib,
        "env:PORDOSOL_HOME/tools/sistema-padrao",
    );
    acrescentar(
        &mut ts,
        candidatos_stdlib_local(raiz),
        Sonda::Stdlib,
        Camada::Local,
        "fallback:local",
        "fallback:local (ausente)",
    );
    ts
}

/// Where the candidate `t` is found, if it is.
pub fn achado(d: &Disco, t: &Tentativa) -> (r: Option<Caminho>)
    ensures
        match r {
            Some(c) => achado_m(d, t@) == Some(c@),
            None => achado_m(d, t@).is_none(),
        },
{
    match t.sonda {
        Sonda::Arquivo => if d.eh_arquivo(&t.caminho) {
            Some(t.caminho.copia())
        } else {
            None
        },
        Sonda::Stdlib => if eh_stdlib_valida(d, &t.caminho) {
            Some(t.caminho.copia())
        } else {
            None
        },
        Sonda::Programa => d.programa(&t.caminho),
    }
}

/// Tries the candidates in order: the first found wins; when none is, the
/// first candidate is reported with its failure origin; `reserva` when there
/// are no candidates.
pub fn resolver(
    nome: &str,
    ts: &Vec<Tentativa>,
    d: &Disco,
    reserva: DiagnosticoFerramenta,
) -> (r: DiagnosticoFerramenta)
    ensures
        r@ == resolucao_m(nome@, vistas_t(ts@), d, reserva@),
{
    let ghost tm = vistas_t(ts@);
    let mut i: usize = 0;
    while i < ts.len()
        invariant
            tm == vistas_t(ts@),
            i <= ts@.len(),
            primeiro_achado(tm, d, 0) == primeiro_achado(tm, d, i as int),
        decreases ts@.len() - i,
    {
        assert(tm[i as int] == ts@[i as int]@);
        if let Some(c) = achado(d, &ts[i]) {
            assert(primeiro_achado(tm, d, i as int) == Some(i as int));
            return ok(nome, c, ts[i].origem.clone());
        }
        i = i + 1;
    }
    if ts.len() > 0 {
        assert(tm[0] == ts@[0]@);
        falha(nome, ts[0].caminho.copia(), ts[0].origem_falha.clone())
    } else {
        reserva
    }
}

/// The diagnosis of the executable `nome_base`, overridden by the variable
/// `variavel_env`: the first of its candidates found (see
/// `tentativas_executavel`), or the first candidate's failure.
pub fn localizar_executavel(
    nome_base: &str,
    variavel_env: &str,
    amb: &Ambiente,
    d: &Disco,
    raiz: &Caminho,
) -> (r: DiagnosticoFerramenta)
    ensures
        r@ == executavel_m(nome_base@, variavel_env@, amb, d, raiz@),
{
    let ts = tentativas_executavel(nome_base, variavel_env, amb, raiz);
    let nome_exec = nome_executavel(nome_base, amb.windows);
    let reserva = falha(
        nome_base,
        Caminho::de_texto(nome_exec.as_str()),
        String::from_str("nao resolvido"),
    );
    resolver(nome_base, &ts, d, reserva)
}

/// The diagnosis of the standard library: the first of its candidates found
/// (see `tentativas_stdlib`), or the first candidate's failure.
pub fn localizar_stdlib_diagnostico(amb: &Ambiente, d: &Disco, raiz: &Caminho) -> (r: DiagnosticoFerramenta)
    ensures
        r@ == stdlib_m(amb, d, raiz@),
{
    let ts = tentativas_stdlib(amb, raiz);
    let reserva = falha(
        "biblioteca padrao",
        raiz.juntar("sistema-padrao"),
        String::from_str("nao resolvido"),
    );
    resolver("biblioteca padrao", &ts, d, reserva)
}

/// The diagnosis of the compiler, the interpreter and the standard library
/// for the project at `raiz`.
pub fn diagnosticar_toolchain(raiz: &Caminho, amb: &Ambiente, d: &Disco) -> (r: DiagnosticoToolchain)
    ensures
        r.compilador@ == executavel_m("compilador"@, "PORDOSOL_COMPILADOR_PATH"@, amb, d, raiz@),
        r.interpretador@ == executavel_m(
            "interpretador"@,
            "PORDOSOL_INTERPRETADOR_PATH"@,
            amb,
            d,
            raiz@,
        ),
        r.stdlib@ == stdlib_m(amb, d, raiz@),
{
    DiagnosticoToolchain {
        compilador: localizar_executavel("compilador", "PORDOSOL_COMPILADOR_PATH", amb, d, raiz),
        interpretador: localizar_executavel(
            "interpretador",
            "PORDOSOL_INTERPRETADOR_PATH",
            amb,
            d,
            raiz,
        ),
        stdlib: localizar_stdlib_diagnostico(amb, d, raiz),
    }
}

/// The paths reported for the compiler and the interpreter, found or not.
pub fn localizar_binarios(raiz: &Caminho, amb: &Ambiente, d: &Disco) -> (r: (Caminho, Caminho))
    ensures
        r.0@ == executavel_m("compilador"@, "PORDOSOL_COMPILADOR_PATH"@, amb, d, raiz@).1,
        r.1@ == executavel_m("interpretador"@, "PORDOSOL_INTERPRETADOR_PATH"@, amb, d, raiz@).1,
{
    let diag = diagnosticar_toolchain(raiz, amb, d);
    (diag.compilador.caminho, diag.interpretador.caminho)
}

/// Every candidate that diagnosing the toolchain may probe: the compiler's,
/// then the interpreter's, then the standard library's.
pub fn consultas_toolchain(raiz: &Caminho, amb: &Ambiente) -> (r: Vec<Tentativa>)
    ensures
        vistas_t(r@) == tentativas_executavel_m(
            "compilador"@,
            "PORDOSOL_COMPILADOR_PATH"@,
            amb,
            raiz@,
        ) + tentativas_executavel_m("interpretador"@, "PORDOSOL_INTERPRETADOR_PATH"@, amb, raiz@)
            + tentativas_stdlib_m(amb, raiz@),
{
    let mut a = tentativas_executavel("compilador", "PORDOSOL_COMPILADOR_PATH", amb, raiz);
    let mut b = tentativas_executavel("interpretador", "PORDOSOL_INTERPRETADOR_PATH", amb, raiz);
    let mut c = tentativas_stdlib(amb, raiz);
    let ghost (am, bm, cm) = (vistas_t(a@), vistas_t(b@), vistas_t(c@));
    a.append(&mut b);
    a.append(&mut c);
    assert(vistas_t(a@) =~= am + bm + cm);
    a
}

proof fn lemma_nada_achado(ts: Seq<TentativaM>, d: &Disco, i: int)
    requires
        0 <= i,
        forall|k: int| 0 <= k < ts.len() ==> (#[trigger] achado_m(d, ts[k])) is None,
    ensures
        primeiro_achado(ts, d, i) is None,
    decreases ts.len() - i,
{
    if i < ts.len() {
        lemma_nada_achado(ts, d, i + 1);
    }
}

/// When the override variable of an executable names an existing file, that
/// file is the result, reported as coming from the variable, whatever the
/// other tiers would have found.
pub proof fn lei_variavel_prevalece(
    nome_base: Seq<char>,
    var: Seq<char>,
    amb: &Ambiente,
    d: &Disco,
    raiz: CaminhoM,
    p: Seq<char>,
)
    requires
        var_m(amb, var) == Some(p),
        eh_arquivo_m(d, de_texto_m(p)),
    ensures
        executavel_m(nome_base, var, amb, d, raiz) == (nome_base, de_texto_m(p), "env:"@ + var, true),
{
    let ts = tentativas_executavel_m(nome_base, var, amb, raiz);
    let v = tentativa_variavel_m(amb, var, Sonda::Arquivo);
    assert(ts[0] == v[0]);
    assert(primeiro_achado(ts, d, 0) == Some(0int));
}

/// When no candidate of an executable is found, the report is the failure
/// of the first candidate tried, not of the last; with the override variable
/// set, that is the variable's path with its failure origin.
pub proof fn lei_primeira_falha(
    nome_base: Seq<char>,
    var: Seq<char>,
    amb: &Ambiente,
    d: &Disco,
    raiz: CaminhoM,
)
    requires
        forall|k: int|
            0 <= k < tentativas_executavel_m(nome_base, var, amb, raiz).len() ==> (#[trigger] achado_m(
                d,
                tentativas_executavel_m(nome_base, var, amb, raiz)[k],
            )) is None,
    ensures
        ({
            let ts = tentativas_executavel_m(nome_base, var, amb, raiz);
            &&& ts.len() > 0
            &&& executavel_m(nome_base, var, amb, d, raiz) == (nome_base, ts[0].0, ts[0].4, false)
        }),
        var_m(amb, var) is Some ==> executavel_m(nome_base, var, amb, d, raiz) == (
            nome_base,
            de_texto_m(var_m(amb, var).unwrap()),
            "env:"@ + var + " (invalido)"@,
            false,
        ),
{
    let ts = tentativas_executavel_m(nome_base, var, amb, raiz);
    lemma_nada_achado(ts, d, 0);
    if var_m(amb, var) is Some {
        let v = tentativa_variavel_m(amb, var, Sonda::Arquivo);
        assert(ts[0] == v[0]);
    }
}

/// A filesystem that shows nothing: no file, no directory, no program.
pub open spec fn disco_vazio(d: &Disco) -> bool {
    d.arquivos@.len() == 0 && d.diretorios@.len() == 0 && d.programas@.len() == 0
}

proof fn lemma_nada_no_disco_vazio(ts: Seq<TentativaM>, d: &Disco)
    requires
        disco_vazio(d),
    ensures
        primeiro_achado(ts, d, 0) is None,
{
    assert forall|k: int| 0 <= k < ts.len() implies (#[trigger] achado_m(d, ts[k])) is None by {}
    lemma_nada_achado(ts, d, 0);
}

/// The hints for the tools not found, in the order compiler, interpreter,
/// standard library.
pub open spec fn dicas_m(compilador: bool, interpretador: bool, stdlib: bool) -> Seq<Seq<char>> {
    (if compilador { Seq::empty() } else { seq![dica_compilador_m()] }) + (if interpretador {
        Seq::empty()
    } else {
        seq![dica_interpretador_m()]
    }) + (if stdlib { Seq::empty() } else { seq![dica_stdlib_m()] })
}

pub open spec fn dica_compilador_m() -> Seq<char> {
    "defina PORDOSOL_COMPILADOR_PATH ou instale o compilador em PORDOSOL_HOME/tools"@
}

pub open spec fn dica_interpretador_m() -> Seq<char> {
    "defina PORDOSOL_INTERPRETADOR_PATH ou instale o interpretador em PORDOSOL_HOME/tools"@
}

pub open spec fn dica_stdlib_m() -> Seq<char> {
    "defina PORDOSOL_STDLIB_PATH ou instale a biblioteca padrao em PORDOSOL_HOME/tools/stdlib"@
}

/// What to do about each tool that was not found.
pub fn dicas_correcao(diag: &DiagnosticoToolchain) -> (r: Vec<String>)
    ensures
        r@.map_values(|s: String| s@) == dicas_m(
            diag.compilador.encontrado,
            diag.interpretador.encontrado,
            diag.stdlib.encontrado,
        ),
{
    let mut out: Vec<String> = Vec::new();
    if !diag.compilador.encontrado {
        out.push(
            String::from_str(
                "defina PORDOSOL_COMPILADOR_PATH ou instale o compilador em PORDOSOL_HOME/tools",
            ),
        );
    }
    if !diag.interpretador.encontrado {
        out.push(
            String::from_str(
                "defina PORDOSOL_INTERPRETADOR_PATH ou instale o interpretador em PORDOSOL_HOME/tools",
            ),
        );
    }
    if !diag.stdlib.encontrado {
        out.push(
            String::from_str(
                "defina PORDOSOL_STDLIB_PATH ou instale a biblioteca padrao em PORDOSOL_HOME/tools/stdlib",
            ),
        );
    }
    assert(out@.map_values(|s: String| s@) =~= dicas_m(
        diag.compilador.encontrado,
        diag.interpretador.encontrado,
        diag.stdlib.encontrado,
    ));
    out
}

/// On a filesystem that shows nothing, whatever the environment holds, none
/// of the three tools is found, and there is a hint for each.
pub proof fn lei_ambiente_vazio(amb: &Ambiente, d: &Disco, raiz: CaminhoM)
    requires
        disco_vazio(d),
    ensures
        !executavel_m("compilador"@, "PORDOSOL_COMPILADOR_PATH"@, amb, d, raiz).3,
        !executavel_m("interpretador"@, "PORDOSOL_INTERPRETADOR_PATH"@, amb, d, raiz).3,
        !stdlib_m(amb, d, raiz).3,
        dicas_m(
            executavel_m("compilador"@, "PORDOSOL_COMPILADOR_PATH"@, amb, d, raiz).3,
            executavel_m("interpretador"@, "PORDOSOL_INTERPRETADOR_PATH"@, amb, d, raiz).3,
            stdlib_m(amb, d, raiz).3,
        ).len() == 3,
{
    lemma_nada_no_disco_vazio(
        tentativas_executavel_m("compilador"@, "PORDOSOL_COMPILADOR_PATH"@, amb, raiz),
        d,
    );
    lemma_nada_no_disco_vazio(
        tentativas_executavel_m("interpretador"@, "PORDOSOL_INTERPRETADOR_PATH"@, amb, raiz),
        d,
    );
    lemma_nada_no_disco_vazio(tentativas_stdlib_m(amb, raiz), d);
}

/// The first `(v` at or after index `i`.
pub open spec fn abre_versao(t: Seq<char>, i: int) -> Option<int>
    decreases t.len() - i,
{
    if i < 0 || i + 1 >= t.len() {
        None
    } else if t[i] == '(' && t[i + 1] == 'v' {
        Some(i)
    } else {
        abre_versao(t, i + 1)
    }
}

/// The first `)` at or after index `i`.
pub open spec fn fecha_versao(t: Seq<char>, i: int) -> Option<int>
    decreases t.len() - i,
{
    if i < 0 || i >= t.len() {
        None
    } else if t[i] == ')' {
        Some(i)
    } else {
        fecha_versao(t, i + 1)
    }
}

/// The first `v` or `V` followed by a digit, at or after index `i`.
pub open spec fn marca_versao(t: Seq<char>, i: int) -> Option<int>
    decreases t.len() - i,
{
    if i < 0 || i + 1 >= t.len() {
        None
    } else if (t[i] == 'v' || t[i] == 'V') && eh_digito(t[i + 1]) {
        Some(i)
    } else {
        marca_versao(t, i + 1)
    }
}

pub open spec fn eh_char_versao(c: char) -> bool {
    eh_digito(c) || c == '.' || c == '-'
}

/// Where the run of digits, dots and hyphens that starts at `j` ends.
pub open spec fn fim_versao(t: Seq<char>, j: int) -> int
    decreases t.len() - j,
{
    if j < 0 || j >= t.len() {
        t.len() as int
    } else if eh_char_versao(t[j]) {
        fim_versao(t, j + 1)
    } else {
        j
    }
}

/// The version named in a tool's output: what stands between the first `(v`
/// and the next `)` (the `v` included); failing that, the first `v` or `V`
/// followed by a digit, with the digits, dots and hyphens after it.
pub open spec fn versao_m(t: Seq<char>) -> Option<Seq<char>> {
    let entre_parenteses = match abre_versao(t, 0) {
        Some(p) => match fecha_versao(t, p + 1) {
            Some(e) => Some(t.subrange(p + 1, e)),
            None => None,
        },
        None => None,
    };
    if entre_parenteses is Some {
        entre_parenteses
    } else {
        match marca_versao(t, 0) {
            Some(i) => Some(t.subrange(i, fim_versao(t, i + 1))),
            None => None,
        }
    }
}

fn achar_abre(t: &Vec<char>) -> (r: Option<usize>)
    ensures
        match r {
            Some(p) => abre_versao(t@, 0) == Some(p as int) && p + 1 < t@.len(),
            None => abre_versao(t@, 0).is_none(),
        },
{
    let n = t.len();
    let mut i: usize = 0;
    while i < n && i + 1 < n
        invariant
            n == t@.len(),
            i <= n,
            abre_versao(t@, 0) == abre_versao(t@, i as int),
        decreases n - i,
    {
        if t[i] == '(' && t[i + 1] == 'v' {
            return Some(i);
        }
        i = i + 1;
    }
    None
}

fn achar_fecha(t: &Vec<char>, de: usize) -> (r: Option<usize>)
    ensures
        match r {
            Some(e) => fecha_versao(t@, de as int) == Some(e as int) && de <= e < t@.len(),
            None => fecha_versao(t@, de as int).is_none(),
        },
{
    let n = t.len();
    let mut e: usize = de;
    while e < n
        invariant
            n == t@.len(),
            de <= e,
            fecha_versao(t@, de as int) == fecha_versao(t@, e as int),
        decreases n - e,
    {
        if t[e] == ')' {
            return Some(e);
        }
        e = e + 1;
    }
    None
}

fn achar_marca(t: &Vec<char>) -> (r: Option<usize>)
    ensures
        match r {
            Some(i) => marca_versao(t@, 0) == Some(i as int) && i + 1 < t@.len(),
            None => marca_versao(t@, 0).is_none(),
        },
{
    let n = t.len();
    let mut i: usize = 0;
    while i < n && i + 1 < n
        invariant
            n == t@.len(),
            i <= n,
            marca_versao(t@, 0) == marca_versao(t@, i as int),
        decreases n - i,
    {
        let c = t[i];
        if (c == 'v' || c == 'V') && eh_digito_exec(t[i + 1]) {
            return Some(i);
        }
        i = i + 1;
    }
    None
}

fn achar_fim(t: &Vec<char>, de: usize) -> (r: usize)
    requires
        de <= t@.len(),
    ensures
        r == fim_versao(t@, de as int),
        de <= r <= t@.len(),
{
    let n = t.len();
    let mut j: usize = de;
    while j < n && (eh_digito_exec(t[j]) || t[j] == '.' || t[j] == '-')
        invariant
            n == t@.len(),
            de <= j <= n,
            fim_versao(t@, de as int) == fim_versao(t@, j as int),
        decreases n - j,
    {
        j = j + 1;
    }
    j
}

/// The version that a tool printed, if its output names one (see
/// `versao_m`).
pub fn extrair_versao(texto: &str) -> (r: Option<String>)
    ensures
        match r {
            Some(v) => versao_m(texto@) == Some(v@),
            None => versao_m(texto@).is_none(),
        },
{
    let t = caracteres(texto);
    if let Some(p) = achar_abre(&t) {
        if let Some(e) = achar_fecha(&t, p + 1) {
            return Some(String::from_str(texto.substring_char(p + 1, e)));
        }
    }
    match achar_marca(&t) {
        Some(i) => {
            let j = achar_fim(&t, i + 1);
            Some(String::from_str(texto.substring_char(i, j)))
        },
        None => None,
    }
}

/// The options tried, in order, to make a tool print its version.
pub open spec fn flags_versao_m() -> Seq<Seq<char>> {
    seq!["--versao"@, "--version"@, "-V"@]
}

/// The options tried, in order, to make a tool print its version.
pub fn flags_versao() -> (r: Vec<String>)
    ensures
        r@.map_values(|s: String| s@) == flags_versao_m(),
{
    let mut v: Vec<String> = Vec::new();
    v.push(String::from_str("--versao"));
    v.push(String::from_str("--version"));
    v.push(String::from_str("-V"));
    assert(v@.map_values(|s: String| s@) =~= flags_versao_m());
    v
}

/// A tool's output as searched for a version: its standard output, then,
/// when it wrote to standard error, that too, on a line of its own if the
/// output was not empty.
pub open spec fn saida_combinada_m(saida: Seq<char>, erro: Seq<char>) -> Seq<char> {
    if erro.len() == 0 {
        saida
    } else if saida.len() == 0 {
        erro
    } else {
        saida + "\n"@ + erro
    }
}

/// A tool's standard output and standard error combined (see
/// `saida_combinada_m`).
pub fn saida_combinada(saida: &str, erro: &str) -> (r: String)
    ensures
        r@ == saida_combinada_m(saida@, erro@),
{
    if erro.unicode_len() == 0 {
        String::from_str(saida)
    } else if saida.unicode_len() == 0 {
        String::from_str(erro)
    } else {
        String::from_str(saida).concat("\n").concat(erro)
    }
}

} // verus!
