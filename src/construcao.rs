//! When to rebuild, where the artifact goes, and which processes a build or
//! a run invokes.
use vstd::prelude::*;
use crate::caminho::{
    Caminho, CaminhoM, copia_todos, extensao_m, juntar_m, nome_m, tem_extensao_caminho, vistas,
};
use crate::texto::{aparado, aparar, haste, haste_exec, minusculas, para_minusculas, texto_igual};

verus! {

/// A modification time, in nanoseconds from the epoch; none when it could
/// not be read.
pub type Instante = Option<i128>;

/// Whether a source is newer than the artifact; an unreadable time on either
/// side counts as newer.
pub open spec fn mais_nova(fonte: Instante, artefato: Instante) -> bool {
    match (artefato, fonte) {
        (Some(a), Some(f)) => f > a,
        _ => true,
    }
}

/// Whether a rebuild is due: never when building is skipped; otherwise when
/// it is forced, when the artifact is missing, when its time cannot be read,
/// or when some source is newer than it.
pub open spec fn precisa_reconstruir_m(
    forcar: bool,
    sem_build: bool,
    artefato_existe: bool,
    artefato: Instante,
    fontes: Seq<Instante>,
) -> bool {
    !sem_build && (forcar || !artefato_existe || artefato is None || exists|i: int|
        0 <= i < fontes.len() && #[trigger] mais_nova(fontes[i], artefato))
}

/// Whether a rebuild is due (see `precisa_reconstruir_m`), given whether the
/// artifact exists, its time, and the time of each source.
pub fn precisa_reconstruir(
    forcar: bool,
    sem_build: bool,
    artefato_existe: bool,
    artefato: Instante,
    fontes: &Vec<Instante>,
) -> (r: bool)
    ensures
        r == precisa_reconstruir_m(forcar, sem_build, artefato_existe, artefato, fontes@),
{
    if sem_build {
        return false;
    }
    if forcar || !artefato_existe || artefato.is_none() {
        return true;
    }
    let mut i: usize = 0;
    while i < fontes.len()
        invariant
            !sem_build && !forcar && artefato_existe && artefato.is_some(),
            i <= fontes@.len(),
            forall|k: int| 0 <= k < i ==> !#[trigger] mais_nova(fontes@[k], artefato),
        decreases fontes@.len() - i,
    {
        let nova = match (artefato, fontes[i]) {
            (Some(a), Some(f)) => f > a,
            _ => true,
        };
        if nova {
            assert(mais_nova(fontes@[i as int], artefato));
            return true;
        }
        i = i + 1;
    }
    false
}

/// Deciding twice on unchanged sources rebuilds the first time, when there
/// is no artifact, and not the second, once the artifact is at least as
/// recent as every source.
pub proof fn lei_reconstrucao_idempotente(fontes: Seq<Instante>, t: i128)
    requires
        forall|i: int| 0 <= i < fontes.len() ==> (#[trigger] fontes[i]) is Some && fontes[i].unwrap() <= t,
    ensures
        precisa_reconstruir_m(false, false, false, None, fontes),
        !precisa_reconstruir_m(false, false, true, Some(t), fontes),
{
    assert forall|i: int| 0 <= i < fontes.len() implies !#[trigger] mais_nova(fontes[i], Some(t)) by {}
}

/// The artifact's file name for a source: its name without extension, then
/// `.pbc`.
pub open spec fn nome_artefato_m(fonte: CaminhoM) -> Seq<char> {
    match nome_m(fonte) {
        Some(n) => haste(n) + ".pbc"@,
        None => ".pbc"@,
    }
}

/// The artifact: the explicit one when given, else the primary source's
/// artifact name inside the build directory.
pub open spec fn artefato_m(explicito: Option<CaminhoM>, fontes: Seq<CaminhoM>, build: CaminhoM) -> CaminhoM {
    match explicito {
        Some(e) => e,
        None => juntar_m(build, nome_artefato_m(fontes[0])),
    }
}

/// The artifact's path: `explicito` as given, or `<build>/<stem>.pbc` after
/// the first source.
pub fn resolver_artefato(explicito: Option<&Caminho>, fontes: &Vec<Caminho>, build: &Caminho) -> (r: Caminho)
    requires
        explicito.is_some() || fontes@.len() > 0,
    ensures
        r@ == artefato_m(
            match explicito {
                Some(e) => Some(e@),
                None => None,
            },
            vistas(fontes@),
            build@,
        ),
{
    match explicito {
        Some(e) => e.copia(),
        None => {
            assert(vistas(fontes@)[0] == fontes@[0]@);
            let nome = match fontes[0].nome() {
                Some(n) => haste_exec(n.as_str()).concat(".pbc"),
                None => String::from_str(".pbc"),
            };
            build.juntar(nome.as_str())
        },
    }
}

/// A target format of the compiler.
#[derive(PartialEq, Eq, Structural, Clone, Copy, Debug)]
pub enum Alvo {
    Bytecode,
    LlvmIr,
    CilBytecode,
    Console,
    Universal,
}

/// The target that a normalised name denotes.
pub open spec fn alvo_de_nome(s: Seq<char>) -> Option<Alvo> {
    if s == "bytecode"@ || s == "bc"@ {
        Some(Alvo::Bytecode)
    } else if s == "llvm"@ || s == "llvm-ir"@ {
        Some(Alvo::LlvmIr)
    } else if s == "cil-bytecode"@ {
        Some(Alvo::CilBytecode)
    } else if s == "console"@ {
        Some(Alvo::Console)
    } else if s == "universal"@ {
        Some(Alvo::Universal)
    } else {
        None
    }
}

/// A target name normalised: trimmed and lower-cased.
pub open spec fn normalizar_m(s: Seq<char>) -> Seq<char> {
    minusculas(aparado(s))
}

/// The target a build uses for a name, after trimming and lower-casing it,
/// and whether the name was unknown: an unknown name builds bytecode, and
/// the caller warns.
pub fn interpretar_alvo(nome: &str) -> (r: (Alvo, bool))
    ensures
        r.0 == match alvo_de_nome(normalizar_m(nome@)) {
            Some(a) => a,
            None => Alvo::Bytecode,
        },
        r.1 == alvo_de_nome(normalizar_m(nome@)) is None,
{
    let t = para_minusculas(aparar(nome).as_str());
    let s = t.as_str();
    if texto_igual(s, "bytecode") || texto_igual(s, "bc") {
        (Alvo::Bytecode, false)
    } else if texto_igual(s, "llvm") || texto_igual(s, "llvm-ir") {
        (Alvo::LlvmIr, false)
    } else if texto_igual(s, "cil-bytecode") {
        (Alvo::CilBytecode, false)
    } else if texto_igual(s, "console") {
        (Alvo::Console, false)
    } else if texto_igual(s, "universal") {
        (Alvo::Universal, false)
    } else {
        (Alvo::Bytecode, true)
    }
}

/// The target of a production build, always LLVM, and whether the name was
/// other than `llvm` or `llvm-ir` (the caller warns).
pub fn interpretar_alvo_producao(nome: &str) -> (r: (Alvo, bool))
    ensures
        r.0 == Alvo::LlvmIr,
        r.1 == !(normalizar_m(nome@) == "llvm"@ || normalizar_m(nome@) == "llvm-ir"@),
{
    let t = para_minusculas(aparar(nome).as_str());
    let conhecido = texto_igual(t.as_str(), "llvm") || texto_igual(t.as_str(), "llvm-ir");
    (Alvo::LlvmIr, !conhecido)
}

pub open spec fn flag_m(a: Alvo) -> Seq<char> {
    match a {
        Alvo::Bytecode => "--target=bytecode"@,
        Alvo::LlvmIr => "--target=llvm-ir"@,
        Alvo::CilBytecode => "--target=cil-bytecode"@,
        Alvo::Console => "--target=console"@,
        Alvo::Universal => "--target=universal"@,
    }
}

/// The compiler option that selects the target.
pub fn flag_alvo(a: Alvo) -> (r: String)
    ensures
        r@ == flag_m(a),
{
    match a {
        Alvo::Bytecode => String::from_str("--target=bytecode"),
        Alvo::LlvmIr => String::from_str("--target=llvm-ir"),
        Alvo::CilBytecode => String::from_str("--target=cil-bytecode"),
        Alvo::Console => String::from_str("--target=console"),
        Alvo::Universal => String::from_str("--target=universal"),
    }
}

/// The target name a build uses: the project's configured default when the
/// requested name is the default `bytecode` and the manifest names one;
/// otherwise the requested name.
pub fn escolher_alvo(pedido: &str, configurado: Option<&str>) -> (r: String)
    ensures
        r@ == (match configurado {
            Some(c) => if pedido@ == "bytecode"@ { c@ } else { pedido@ },
            None => pedido@,
        }),
{
    match configurado {
        Some(c) => if texto_igual(pedido, "bytecode") {
            String::from_str(c)
        } else {
            String::from_str(pedido)
        },
        None => String::from_str(pedido),
    }
}

/// What a process does for a build or a run.
#[derive(PartialEq, Eq, Structural, Clone, Copy, Debug)]
pub enum Papel {
    Compilacao,
    Execucao,
}

/// One process to start: the program, the directory it runs in (the
/// current one when none), an option, then paths as arguments.
pub struct Comando {
    pub papel: Papel,
    pub programa: Caminho,
    pub diretorio: Option<Caminho>,
    pub opcao: Option<String>,
    pub argumentos: Vec<Caminho>,
}

/// Why a build or a run cannot go on.
pub enum ErroExecucao {
    /// No source file under `<raiz>/src`.
    SemFontes(Caminho),
    /// The compiler is not where the diagnosis points.
    CompiladorAusente(Caminho),
    /// The interpreter is not where the diagnosis points.
    InterpretadorAusente(Caminho),
    /// Building was skipped and there is no artifact to run.
    ArtefatoAusente(Caminho),
    /// The compiler exited with this code (none: killed by a signal).
    CompilacaoFalhou(Option<i32>),
    /// The interpreter exited with this code (none: killed by a signal).
    ExecucaoFalhou(Option<i32>),
}

/// A process succeeded when it exited with code 0.
pub fn sucesso(codigo: Option<i32>) -> (r: bool)
    ensures
        r == (codigo == Some(0i32)),
{
    match codigo {
        Some(c) => c == 0,
        None => false,
    }
}

/// The sources a build compiles: the given path alone when it is a source
/// file, else the project's sources, of which there must be one.
pub open spec fn fontes_compilacao_m(
    caminho: CaminhoM,
    caminho_eh_arquivo: bool,
    listadas: Seq<CaminhoM>,
) -> Option<Seq<CaminhoM>> {
    if caminho_eh_arquivo && extensao_m(caminho) == Some("pr"@) {
        Some(seq![caminho])
    } else if listadas.len() == 0 {
        None
    } else {
        Some(listadas)
    }
}

/// What a build (`build`, or `producao`) starts from.
pub struct EntradaCompilacao {
    /// The project root.
    pub raiz: Caminho,
    /// The path given on the command line.
    pub caminho: Caminho,
    /// Whether that path is a regular file.
    pub caminho_eh_arquivo: bool,
    /// The project's sources, as `listar_prs` gives them.
    pub fontes_projeto: Vec<Caminho>,
    /// Where the diagnosis puts the compiler, and whether it is there.
    pub compilador: Caminho,
    pub compilador_existe: bool,
    /// The output directory asked for, if any (else `<raiz>/build`).
    pub saida: Option<Caminho>,
    /// Whether the bytecode artifact (see `artefato_compilacao`) exists,
    /// and its time.
    pub artefato_existe: bool,
    pub instante_artefato: Instante,
    /// The time of each source compiled (see `fontes_compilacao`), in order.
    pub instantes_fontes: Vec<Instante>,
}

/// The output directory of a build.
pub open spec fn saida_m(e: &EntradaCompilacao) -> CaminhoM {
    match e.saida {
        Some(s) => s@,
        None => juntar_m(e.raiz@, "build"@),
    }
}

/// Whether a build for `alvo` runs the compiler: a bytecode build only when
/// a rebuild is due; any other target produces another artifact, and always
/// compiles.
pub open spec fn compila_build_m(e: &EntradaCompilacao, alvo: Alvo) -> bool {
    alvo != Alvo::Bytecode || precisa_reconstruir_m(
        false,
        false,
        e.artefato_existe,
        e.instante_artefato,
        e.instantes_fontes@,
    )
}

/// A bytecode build on unchanged sources compiles the first time, when there
/// is no artifact, and not the second, once the artifact is at least as
/// recent as every source.
pub proof fn lei_build_idempotente(e: &EntradaCompilacao, t: i128)
    requires
        forall|i: int|
            0 <= i < e.instantes_fontes@.len() ==> (#[trigger] e.instantes_fontes@[i]) is Some
                && e.instantes_fontes@[i].unwrap() <= t,
    ensures
        !e.artefato_existe ==> compila_build_m(e, Alvo::Bytecode),
        e.artefato_existe && e.instante_artefato == Some(t) ==> !compila_build_m(e, Alvo::Bytecode),
{
    lei_reconstrucao_idempotente(e.instantes_fontes@, t);
}

/// The sources a build compiles; none when there are none.
pub fn fontes_compilacao(e: &EntradaCompilacao) -> (r: Option<Vec<Caminho>>)
    ensures
        match r {
            Some(v) => fontes_compilacao_m(e.caminho@, e.caminho_eh_arquivo, vistas(e.fontes_projeto@))
                == Some(vistas(v@)) && v@.len() > 0,
            None => fontes_compilacao_m(e.caminho@, e.caminho_eh_arquivo, vistas(e.fontes_projeto@))
                is None,
        },
{
    if e.caminho_eh_arquivo && tem_extensao_caminho(&e.caminho, "pr") {
        let mut v: Vec<Caminho> = Vec::new();
        v.push(e.caminho.copia());
        assert(vistas(v@) =~= seq![e.caminho@]);
        Some(v)
    } else if e.fontes_projeto.len() == 0 {
        None
    } else {
        Some(copia_todos(&e.fontes_projeto))
    }
}

/// The bytecode artifact of a build: `<output>/<first source's stem>.pbc`;
/// none when there are no sources.
pub fn artefato_compilacao(e: &EntradaCompilacao) -> (r: Option<Caminho>)
    ensures
        match fontes_compilacao_m(e.caminho@, e.caminho_eh_arquivo, vistas(e.fontes_projeto@)) {
            Some(fs) => r is Some && r.unwrap()@ == artefato_m(None, fs, saida_m(e)),
            None => r is None,
        },
{
    match fontes_compilacao(e) {
        Some(fs) => {
            let diretorio = match &e.saida {
                Some(s) => s.copia(),
                None => e.raiz.juntar("build"),
            };
            Some(resolver_artefato(None, &fs, &diretorio))
        },
        None => None,
    }
}

/// The compile command of a build.
pub open spec fn comando_compilacao_ok(c: &Comando, e: &EntradaCompilacao, flag: Seq<char>, fontes: Seq<CaminhoM>) -> bool {
    &&& c.papel == Papel::Compilacao
    &&& c.programa@ == e.compilador@
    &&& c.diretorio is Some
    &&& c.diretorio.unwrap()@ == saida_m(e)
    &&& c.opcao is Some && c.opcao.unwrap()@ == flag
    &&& vistas(c.argumentos@) == fontes
}

/// The compile command of a build for the target `alvo`: no sources is an
/// error, then a missing compiler; then none when the build is up to date
/// (see `compila_build_m`); otherwise the compiler runs in the output
/// directory with the target option and every source.
pub fn planejar_compilacao(e: &EntradaCompilacao, alvo: Alvo) -> (r: Result<Option<Comando>, ErroExecucao>)
    ensures
        match fontes_compilacao_m(e.caminho@, e.caminho_eh_arquivo, vistas(e.fontes_projeto@)) {
            None => r matches Err(ErroExecucao::SemFontes(c)) && c@ == e.raiz@,
            Some(fs) => if !e.compilador_existe {
                r matches Err(ErroExecucao::CompiladorAusente(c)) && c@ == e.compilador@
            } else if !compila_build_m(e, alvo) {
                r matches Ok(None)
            } else {
                r matches Ok(Some(c)) && comando_compilacao_ok(&c, e, flag_m(alvo), fs)
            },
        },
{
    let fontes = match fontes_compilacao(e) {
        Some(v) => v,
        None => return Err(ErroExecucao::SemFontes(e.raiz.copia())),
    };
    if !e.compilador_existe {
        return Err(ErroExecucao::CompiladorAusente(e.compilador.copia()));
    }
    if alvo == Alvo::Bytecode && !precisa_reconstruir(
        false,
        false,
        e.artefato_existe,
        e.instante_artefato,
        &e.instantes_fontes,
    ) {
        return Ok(None);
    }
    let diretorio = match &e.saida {
        Some(s) => s.copia(),
        None => e.raiz.juntar("build"),
    };
    Ok(
        Some(
            Comando {
                papel: Papel::Compilacao,
                programa: e.compilador.copia(),
                diretorio: Some(diretorio),
                opcao: Some(flag_alvo(alvo)),
                argumentos: fontes,
            },
        ),
    )
}

/// The error that a process's exit code means for its part, if any.
pub fn erro_de_saida(papel: Papel, codigo: Option<i32>) -> (r: Option<ErroExecucao>)
    ensures
        codigo == Some(0i32) ==> r.is_none(),
        codigo != Some(0i32) ==> (match papel {
            Papel::Compilacao => r matches Some(ErroExecucao::CompilacaoFalhou(c)) && c == codigo,
            Papel::Execucao => r matches Some(ErroExecucao::ExecucaoFalhou(c)) && c == codigo,
        }),
{
    if sucesso(codigo) {
        None
    } else {
        match papel {
            Papel::Compilacao => Some(ErroExecucao::CompilacaoFalhou(codigo)),
            Papel::Execucao => Some(ErroExecucao::ExecucaoFalhou(codigo)),
        }
    }
}

/// What a run (`run`) starts from.
pub struct EntradaExecucao {
    /// The project root.
    pub raiz: Caminho,
    /// The path given on the command line, and whether it is a regular file.
    pub caminho: Caminho,
    pub caminho_eh_arquivo: bool,
    /// The file given with `--arquivo`: a source, or an artifact to run.
    pub arquivo: Option<Caminho>,
    /// The project's sources, as `listar_prs` gives them.
    pub fontes_projeto: Vec<Caminho>,
    /// Where the diagnosis puts the compiler and the interpreter, and
    /// whether they are there.
    pub compilador: Caminho,
    pub compilador_existe: bool,
    pub interpretador: Caminho,
    pub interpretador_existe: bool,
}

/// What a run resolved to, before any process starts.
pub struct PlanoExecucao {
    pub fontes: Vec<Caminho>,
    pub artefato: Caminho,
    pub saida_dir: Caminho,
    /// An artifact was given to run as it is: nothing is compiled.
    pub somente_artefato: bool,
    pub compilador: Caminho,
    pub interpretador: Caminho,
}

pub open spec fn opcional_m(c: Option<Caminho>) -> Option<CaminhoM> {
    match c {
        Some(x) => Some(x@),
        None => None,
    }
}

/// Whether the run was given an artifact to run as it is.
pub open spec fn somente_artefato_m(arquivo: Option<CaminhoM>) -> bool {
    arquivo is Some && extensao_m(arquivo.unwrap()) == Some("pbc"@)
}

/// The sources of a run: the given source file alone, else as for a build;
/// with an explicit artifact, the project's sources whatever their number.
pub open spec fn fontes_execucao_m(
    arquivo: Option<CaminhoM>,
    caminho: CaminhoM,
    caminho_eh_arquivo: bool,
    listadas: Seq<CaminhoM>,
) -> Option<Seq<CaminhoM>> {
    match arquivo {
        Some(a) => if extensao_m(a) == Some("pr"@) { Some(seq![a]) } else { Some(listadas) },
        None => fontes_compilacao_m(caminho, caminho_eh_arquivo, listadas),
    }
}

/// The artifact given outright: any `--arquivo` but a source file.
pub open spec fn explicito_m(arquivo: Option<CaminhoM>) -> Option<CaminhoM> {
    match arquivo {
        Some(a) => if extensao_m(a) == Some("pr"@) { None } else { Some(a) },
        None => None,
    }
}

/// A run's plan: its sources (none is an error), then the compiler and the
/// interpreter must be there; the artifact is the one given, or the one
/// named after the first source in `<raiz>/build`.
pub fn planejar_execucao(e: &EntradaExecucao) -> (r: Result<PlanoExecucao, ErroExecucao>)
    ensures
        match fontes_execucao_m(
            opcional_m(e.arquivo),
            e.caminho@,
            e.caminho_eh_arquivo,
            vistas(e.fontes_projeto@),
        ) {
            None => r matches Err(ErroExecucao::SemFontes(c)) && c@ == e.raiz@,
            Some(fs) => if !e.compilador_existe {
                r matches Err(ErroExecucao::CompiladorAusente(c)) && c@ == e.compilador@
            } else if !e.interpretador_existe {
                r matches Err(ErroExecucao::InterpretadorAusente(c)) && c@ == e.interpretador@
            } else {
                r matches Ok(p) && vistas(p.fontes@) == fs && p.artefato@ == artefato_m(
                    explicito_m(opcional_m(e.arquivo)),
                    fs,
                    juntar_m(e.raiz@, "build"@),
                ) && p.saida_dir@ == juntar_m(e.raiz@, "build"@) && p.somente_artefato
                    == somente_artefato_m(opcional_m(e.arquivo)) && p.compilador@ == e.compilador@
                    && p.interpretador@ == e.interpretador@
            },
        },
{
    let mut explicito: Option<&Caminho> = None;
    let mut somente_artefato = false;
    let fontes = match &e.arquivo {
        Some(a) => {
            somente_artefato = tem_extensao_caminho(a, "pbc");
            if tem_extensao_caminho(a, "pr") {
                let mut v: Vec<Caminho> = Vec::new();
                v.push(a.copia());
                assert(vistas(v@) =~= seq![a@]);
                v
            } else {
                explicito = Some(a);
                copia_todos(&e.fontes_projeto)
            }
        },
        None => {
            if e.caminho_eh_arquivo && tem_extensao_caminho(&e.caminho, "pr") {
                let mut v: Vec<Caminho> = Vec::new();
                v.push(e.caminho.copia());
                assert(vistas(v@) =~= seq![e.caminho@]);
                v
            } else if e.fontes_projeto.len() == 0 {
                return Err(ErroExecucao::SemFontes(e.raiz.copia()));
            } else {
                copia_todos(&e.fontes_projeto)
            }
        },
    };
    if !e.compilador_existe {
        return Err(ErroExecucao::CompiladorAusente(e.compilador.copia()));
    }
    if !e.interpretador_existe {
        return Err(ErroExecucao::InterpretadorAusente(e.interpretador.copia()));
    }
    let saida_dir = e.raiz.juntar("build");
    let artefato = resolver_artefato(explicito, &fontes, &saida_dir);
    Ok(
        PlanoExecucao {
            fontes,
            artefato,
            saida_dir,
            somente_artefato,
            compilador: e.compilador.copia(),
            interpretador: e.interpretador.copia(),
        },
    )
}

/// Whether a run compiles before it runs: never for an artifact given to
/// run as it is; otherwise when a rebuild is due.
pub open spec fn compila_m(
    plano: &PlanoExecucao,
    forcar: bool,
    sem_build: bool,
    artefato_existe: bool,
    artefato: Instante,
    fontes: Seq<Instante>,
) -> bool {
    !plano.somente_artefato && precisa_reconstruir_m(forcar, sem_build, artefato_existe, artefato, fontes)
}

/// The processes a run starts, in order, given whether its artifact exists,
/// the artifact's time and each source's: when building is skipped the
/// artifact must exist; the compiler runs (for bytecode, in the build
/// directory, on every source) when a rebuild is due; the interpreter then
/// runs the artifact.
pub fn run_cmd(
    plano: &PlanoExecucao,
    forcar: bool,
    sem_build: bool,
    artefato_existe: bool,
    artefato: Instante,
    fontes: &Vec<Instante>,
) -> (r: Result<Vec<Comando>, ErroExecucao>)
    ensures
        sem_build && !artefato_existe ==> (r matches Err(ErroExecucao::ArtefatoAusente(c)) && c@
            == plano.artefato@),
        !(sem_build && !artefato_existe) ==> (r matches Ok(cs) && ({
            let n: int = if compila_m(plano, forcar, sem_build, artefato_existe, artefato, fontes@) {
                2
            } else {
                1
            };
            &&& cs@.len() == n
            &&& n == 2 ==> ({
                let c = cs@[0];
                &&& c.papel == Papel::Compilacao
                &&& c.programa@ == plano.compilador@
                &&& c.diretorio is Some && c.diretorio.unwrap()@ == plano.saida_dir@
                &&& c.opcao is Some && c.opcao.unwrap()@ == flag_m(Alvo::Bytecode)
                &&& vistas(c.argumentos@) == vistas(plano.fontes@)
            })
            &&& cs@[n - 1].papel == Papel::Execucao
            &&& cs@[n - 1].programa@ == plano.interpretador@
            &&& cs@[n - 1].diretorio is None
            &&& cs@[n - 1].opcao is None
            &&& vistas(cs@[n - 1].argumentos@) == seq![plano.artefato@]
        })),
{
    if sem_build && !artefato_existe {
        return Err(ErroExecucao::ArtefatoAusente(plano.artefato.copia()));
    }
    let compila = !plano.somente_artefato && precisa_reconstruir(
        forcar,
        sem_build,
        artefato_existe,
        artefato,
        fontes,
    );
    let mut cs: Vec<Comando> = Vec::new();
    if compila {
        cs.push(
            Comando {
                papel: Papel::Compilacao,
                programa: plano.compilador.copia(),
                diretorio: Some(plano.saida_dir.copia()),
                opcao: Some(flag_alvo(Alvo::Bytecode)),
                argumentos: copia_todos(&plano.fontes),
            },
        );
    }
    let mut alvo: Vec<Caminho> = Vec::new();
    alvo.push(plano.artefato.copia());
    assert(vistas(alvo@) =~= seq![plano.artefato@]);
    cs.push(
        Comando {
            papel: Papel::Execucao,
            programa: plano.interpretador.copia(),
            diretorio: None,
            opcao: None,
            argumentos: alvo,
        },
    );
    Ok(cs)
}

} // verus!
