use pordosol::toolchain::{flags_versao, saida_combinada};
use pordosol::ambiente::{Ambiente, Disco, Programa, Variavel};
use pordosol::caminho::Caminho;
use pordosol::toolchain::{
    consultas_toolchain, diagnosticar_toolchain, dicas_correcao, extrair_versao,
    localizar_binarios, localizar_executavel, localizar_stdlib_diagnostico, nome_executavel,
    tentativas_executavel, Camada,
};

fn cam(p: &str) -> Caminho {
    let partes: Vec<String> = p.split('/').filter(|s| !s.is_empty()).map(|s| s.to_string()).collect();
    Caminho::novo("/".to_string(), partes)
}

fn texto(c: &Caminho) -> String {
    format!("{}{}", c.raiz, c.partes.join("/"))
}

fn var(n: &str, v: &str) -> Variavel {
    Variavel { nome: n.to_string(), valor: v.to_string() }
}

fn amb(vars: Vec<Variavel>, exe: Option<&str>) -> Ambiente {
    Ambiente { variaveis: vars, executavel: exe.map(cam), windows: false }
}

fn disco(arquivos: &[&str], diretorios: &[&str]) -> Disco {
    Disco {
        arquivos: arquivos.iter().map(|p| cam(p)).collect(),
        diretorios: diretorios.iter().map(|p| cam(p)).collect(),
        programas: vec![],
    }
}

fn de_texto(s: &str) -> Caminho {
    Caminho::de_texto(s)
}

#[test]
fn variavel_aponta_para_arquivo_existente() {
    let a = amb(vec![var("PORDOSOL_COMPILADOR_PATH", "/opt/c/compilador")], Some("/usr/bin/pordosol"));
    // Every other tier would also succeed; the variable still wins.
    let mut d = disco(
        &["/usr/bin/tools/compilador", "/proj/lib/compilador"],
        &[],
    );
    d.arquivos.push(de_texto("/opt/c/compilador"));
    d.programas.push(Programa { nome: "compilador".to_string(), caminho: cam("/bin/compilador") });
    let r = localizar_executavel("compilador", "PORDOSOL_COMPILADOR_PATH", &a, &d, &cam("/proj"));
    assert!(r.encontrado);
    assert_eq!(r.origem, "env:PORDOSOL_COMPILADOR_PATH");
    assert_eq!(r.caminho.partes, vec!["/opt/c/compilador".to_string()]);
    assert_eq!(r.nome, "compilador");
}

#[test]
fn nada_encontrado_relata_a_primeira_camada() {
    let a = amb(vec![var("PORDOSOL_COMPILADOR_PATH", "/nao/existe")], Some("/usr/bin/pordosol"));
    let d = disco(&[], &[]);
    let r = localizar_executavel("compilador", "PORDOSOL_COMPILADOR_PATH", &a, &d, &cam("/proj"));
    assert!(!r.encontrado);
    assert_eq!(r.origem, "env:PORDOSOL_COMPILADOR_PATH (invalido)");
    assert_eq!(r.caminho.partes, vec!["/nao/existe".to_string()]);
}

#[test]
fn sem_variavel_a_primeira_falha_e_a_instalacao() {
    let a = amb(vec![], Some("/usr/bin/pordosol"));
    let r = localizar_executavel("compilador", "PORDOSOL_COMPILADOR_PATH", &a, &disco(&[], &[]), &cam("/proj"));
    assert!(!r.encontrado);
    assert_eq!(r.origem, "instalacao-cli/tools (ausente)");
    assert_eq!(texto(&r.caminho), "/usr/bin/tools/compilador");
}

#[test]
fn variavel_em_branco_e_ignorada() {
    let a = amb(vec![var("PORDOSOL_COMPILADOR_PATH", "   ")], None);
    let ts = tentativas_executavel("compilador", "PORDOSOL_COMPILADOR_PATH", &a, &cam("/proj"));
    assert_eq!(ts[0].camada, Camada::Busca);
    // With no executable path, the list is: PATH, then six lib levels (/proj, /).
    assert_eq!(ts.len(), 1 + 2);
    assert_eq!(texto(&ts[1].caminho), "/proj/lib/compilador");
    assert_eq!(texto(&ts[2].caminho), "/lib/compilador");
}

#[test]
fn variavel_aparada() {
    let a = amb(vec![var("PORDOSOL_COMPILADOR_PATH", "  /opt/c  ")], None);
    let ts = tentativas_executavel("compilador", "PORDOSOL_COMPILADOR_PATH", &a, &cam("/proj"));
    assert_eq!(ts[0].caminho.partes, vec!["/opt/c".to_string()]);
}

#[test]
fn camadas_na_ordem() {
    let a = amb(
        vec![var("PORDOSOL_HOME", "/home/u/pds"), var("PORDOSOL_COMPILADOR_PATH", "/x")],
        Some("/inst/bin/pordosol"),
    );
    let ts = tentativas_executavel("compilador", "PORDOSOL_COMPILADOR_PATH", &a, &cam("/w/p"));
    let camadas: Vec<Camada> = ts.iter().map(|t| t.camada).collect();
    assert_eq!(
        camadas,
        vec![
            Camada::Variavel,
            Camada::Instalacao,
            Camada::Instalacao,
            Camada::Home,
            Camada::Busca,
            Camada::Local,
            Camada::Local,
            Camada::Local,
        ]
    );
    assert_eq!(texto(&ts[1].caminho), "/inst/bin/tools/compilador");
    assert_eq!(texto(&ts[2].caminho), "/inst/tools/compilador");
    assert_eq!(ts[3].caminho.partes, vec!["/home/u/pds", "tools", "compilador"]);
    assert_eq!(ts[4].caminho.partes, vec!["compilador"]);
    assert_eq!(texto(&ts[7].caminho), "/lib/compilador");
}

#[test]
fn encontrado_no_path() {
    let a = amb(vec![], None);
    let mut d = disco(&[], &[]);
    d.programas.push(Programa { nome: "interpretador".to_string(), caminho: cam("/usr/local/bin/interpretador") });
    let r = localizar_executavel("interpretador", "PORDOSOL_INTERPRETADOR_PATH", &a, &d, &cam("/p"));
    assert!(r.encontrado);
    assert_eq!(r.origem, "PATH");
    assert_eq!(texto(&r.caminho), "/usr/local/bin/interpretador");
}

#[test]
fn encontrado_em_lib_local_de_um_pai() {
    let a = amb(vec![], None);
    let d = disco(&["/w/lib/compilador"], &[]);
    let r = localizar_executavel("compilador", "PORDOSOL_COMPILADOR_PATH", &a, &d, &cam("/w/p/q"));
    assert!(r.encontrado);
    assert_eq!(r.origem, "fallback:./lib");
    assert_eq!(texto(&r.caminho), "/w/lib/compilador");
}

#[test]
fn nome_executavel_no_windows() {
    assert_eq!(nome_executavel("compilador", true), "compilador.exe");
    assert_eq!(nome_executavel("compilador", false), "compilador");
    let a = Ambiente { variaveis: vec![], executavel: None, windows: true };
    let ts = tentativas_executavel("compilador", "PORDOSOL_COMPILADOR_PATH", &a, &cam("/p"));
    assert_eq!(ts[0].caminho.partes, vec!["compilador.exe"]);
}

#[test]
fn stdlib_por_manifesto_ou_src() {
    let a = amb(vec![var("PORDOSOL_HOME", "/h")], None);
    let mut d = disco(&[], &[]);
    d.diretorios.push(Caminho::de_texto("/h").juntar("tools").juntar("stdlib"));
    d.arquivos.push(Caminho::de_texto("/h").juntar("tools").juntar("stdlib").juntar("Sistema.toml"));
    let r = localizar_stdlib_diagnostico(&a, &d, &cam("/p"));
    assert!(r.encontrado);
    assert_eq!(r.origem, "env:PORDOSOL_HOME/tools/stdlib");
    assert_eq!(r.nome, "biblioteca padrao");

    // A directory alone is not a standard library.
    let d2 = disco(&[], &["/p/stdlib"]);
    let r2 = localizar_stdlib_diagnostico(&amb(vec![], None), &d2, &cam("/p"));
    assert!(!r2.encontrado);
    assert_eq!(r2.origem, "fallback:local (ausente)");
    assert_eq!(texto(&r2.caminho), "/p/lib/stdlib");

    // With its `src` it is.
    let d3 = disco(&[], &["/p/sistema-padrao", "/p/sistema-padrao/src"]);
    let r3 = localizar_stdlib_diagnostico(&amb(vec![], None), &d3, &cam("/p"));
    assert!(r3.encontrado);
    assert_eq!(r3.origem, "fallback:local");
    assert_eq!(texto(&r3.caminho), "/p/sistema-padrao");
}

#[test]
fn stdlib_variavel_legada() {
    let a = amb(vec![var("PORDOSOL_BIBLIOTECA_PADRAO_PATH", "/s")], None);
    let mut d = disco(&[], &[]);
    d.diretorios.push(Caminho::de_texto("/s"));
    d.diretorios.push(Caminho::de_texto("/s").juntar("src"));
    let r = localizar_stdlib_diagnostico(&a, &d, &cam("/p"));
    assert!(r.encontrado);
    assert_eq!(r.origem, "env:PORDOSOL_BIBLIOTECA_PADRAO_PATH");
}

#[test]
fn doctor_em_ambiente_vazio() {
    let a = amb(vec![], None);
    let d = disco(&[], &[]);
    let diag = diagnosticar_toolchain(&cam("/p"), &a, &d);
    assert!(!diag.compilador.encontrado);
    assert!(!diag.interpretador.encontrado);
    assert!(!diag.stdlib.encontrado);
    assert!(!diag.pronto());
    let dicas = dicas_correcao(&diag);
    assert_eq!(dicas.len(), 3);
    assert!(dicas[0].contains("PORDOSOL_COMPILADOR_PATH"));
}

#[test]
fn doctor_em_layout_de_instalacao() {
    let a = amb(vec![var("PORDOSOL_HOME", "/inst")], Some("/inst/bin/pordosol"));
    let d = disco(
        &["/inst/tools/compilador", "/inst/tools/interpretador", "/inst/tools/stdlib/Sistema.toml"],
        &["/inst/tools/stdlib"],
    );
    let diag = diagnosticar_toolchain(&cam("/w"), &a, &d);
    assert!(diag.pronto());
    assert_eq!(diag.compilador.origem, "instalacao-cli/tools");
    assert_eq!(diag.stdlib.origem, "instalacao-cli/tools/stdlib");
    assert!(dicas_correcao(&diag).is_empty());
    let (c, i) = localizar_binarios(&cam("/w"), &a, &d);
    assert_eq!(texto(&c), "/inst/tools/compilador");
    assert_eq!(texto(&i), "/inst/tools/interpretador");
}

#[test]
fn consultas_cobrem_as_tres_ferramentas() {
    let a = amb(vec![], None);
    let cs = consultas_toolchain(&cam("/p"), &a);
    // Compiler: PATH + 2 lib levels; interpreter: same; stdlib: 4 per level.
    assert_eq!(cs.len(), 3 + 3 + 8);
}

#[test]
fn versao_entre_parenteses() {
    assert_eq!(extrair_versao("Compilador Por do Sol (v1.2.3)").as_deref(), Some("v1.2.3"));
    assert_eq!(extrair_versao("x (v2.0-rc1) y (v3)").as_deref(), Some("v2.0-rc1"));
}

#[test]
fn versao_por_marca() {
    assert_eq!(extrair_versao("interpretador V10.4-2 pronto").as_deref(), Some("V10.4-2"));
    // An open parenthesis without its close falls back to the scan.
    assert_eq!(extrair_versao("(v1.5 sem fim").as_deref(), Some("v1.5"));
    assert_eq!(extrair_versao("versao 3"), None);
    assert_eq!(extrair_versao(""), None);
    assert_eq!(extrair_versao("v"), None);
}

#[test]
fn versao_para_no_primeiro_caractere_estranho() {
    assert_eq!(extrair_versao("v1.0beta").as_deref(), Some("v1.0"));
}

#[test]
fn saidas_combinadas() {
    assert_eq!(saida_combinada("a", ""), "a");
    assert_eq!(saida_combinada("", "b"), "b");
    assert_eq!(saida_combinada("a", "b"), "a\nb");
    assert_eq!(flags_versao(), vec!["--versao", "--version", "-V"]);
    assert_eq!(extrair_versao(&saida_combinada("sem versao", "erro (v0.9)")).as_deref(), Some("v0.9"));
}
