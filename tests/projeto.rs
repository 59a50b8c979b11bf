use pordosol::projeto::{
    carregar_configuracao_projeto, campo_texto, dep_cmd, descrever_dep, formatar_manifesto, ErroDep,
    Json, ResultadoDep,
};
use pordosol::fontes::{listar_prs, Entrada};
use pordosol::caminho::Caminho;

const MANIFESTO: &str = r#"{
    "nome": "app",
    "tipo": "console",
    "versao": "1.0.0",
    "dependencias": {},
    "configuracao": { "target_padrao": "bytecode", "otimizacao": false }
}"#;

fn carregar(t: &str) -> Json {
    carregar_configuracao_projeto(Some(t)).unwrap()
}

fn listar(m: Json) -> Vec<String> {
    match dep_cmd("list", None, None, None, m) {
        Ok(ResultadoDep::Lista(ds)) => ds.iter().map(descrever_dep).collect(),
        _ => panic!("lista esperada"),
    }
}

#[test]
fn dep_adicionar_listar_remover() {
    let m = carregar(MANIFESTO);
    let m = match dep_cmd("add", Some("foo"), Some("1.2.3"), None, m) {
        Ok(ResultadoDep::Gravada { manifesto, ja_existia }) => {
            assert!(!ja_existia);
            manifesto
        }
        _ => panic!("gravada esperada"),
    };
    let texto = formatar_manifesto(&m);
    let m = carregar(&texto);
    assert_eq!(campo_texto(&m, "nome").as_deref(), Some("app"));
    assert_eq!(listar(carregar(&texto)), vec!["foo = 1.2.3"]);
    let m = match dep_cmd("remove", Some("foo"), None, None, m) {
        Ok(ResultadoDep::Removida { manifesto }) => manifesto,
        _ => panic!("removida esperada"),
    };
    let texto = formatar_manifesto(&m);
    assert!(listar(carregar(&texto)).is_empty());
    // Removing it again is not an error.
    assert!(matches!(dep_cmd("rm", Some("foo"), None, None, carregar(&texto)), Ok(ResultadoDep::NaoEncontrada)));
}

#[test]
fn dep_atualiza_e_caminho_local() {
    let m = carregar(MANIFESTO);
    let m = match dep_cmd("ADD", Some("foo"), None, None, m) {
        Ok(ResultadoDep::Gravada { manifesto, .. }) => manifesto,
        _ => panic!(),
    };
    let m = match dep_cmd("add", Some("foo"), None, Some("../foo"), m) {
        Ok(ResultadoDep::Gravada { manifesto, ja_existia }) => {
            assert!(ja_existia);
            manifesto
        }
        _ => panic!(),
    };
    let m = match dep_cmd("add", Some("bar"), None, None, m) {
        Ok(ResultadoDep::Gravada { manifesto, .. }) => manifesto,
        _ => panic!(),
    };
    let mut itens = listar(carregar(&formatar_manifesto(&m)));
    itens.sort();
    assert_eq!(itens, vec!["bar = *", "foo (path = \"../foo\")"]);
}

#[test]
fn dep_erros() {
    assert!(matches!(dep_cmd("add", None, None, None, carregar(MANIFESTO)), Err(ErroDep::SemNome)));
    assert!(matches!(dep_cmd("remove", None, None, None, carregar(MANIFESTO)), Err(ErroDep::SemNome)));
    match dep_cmd("Update", Some("x"), None, None, carregar(MANIFESTO)) {
        Err(ErroDep::AcaoDesconhecida(a)) => assert_eq!(a, "update"),
        _ => panic!(),
    }
    let sem = carregar(r#"{"nome": "x"}"#);
    assert!(matches!(dep_cmd("list", None, None, None, sem), Err(ErroDep::SemDependencias)));
    let errado = carregar(r#"{"dependencias": []}"#);
    assert!(matches!(dep_cmd("list", None, None, None, errado), Err(ErroDep::SemDependencias)));
}

#[test]
fn manifesto_invalido() {
    assert!(carregar_configuracao_projeto(Some("{ nao json")).is_none());
    assert!(carregar_configuracao_projeto(None).is_none());
}

fn cam(p: &str) -> Caminho {
    let partes: Vec<String> = p.split('/').filter(|s| !s.is_empty()).map(|s| s.to_string()).collect();
    Caminho::novo("/".to_string(), partes)
}

#[test]
fn fontes_com_programa_primeiro() {
    let es = vec![
        Entrada { caminho: cam("/p/src/a.pr"), eh_arquivo: true },
        Entrada { caminho: cam("/p/src/sub"), eh_arquivo: false },
        Entrada { caminho: cam("/p/src/notas.txt"), eh_arquivo: true },
        Entrada { caminho: cam("/p/src/sub/b.pr"), eh_arquivo: true },
        Entrada { caminho: cam("/p/src/programa.pr"), eh_arquivo: true },
        Entrada { caminho: cam("/p/src/dir.pr"), eh_arquivo: false },
    ];
    let r = listar_prs(&cam("/p"), &es);
    let nomes: Vec<String> = r.iter().map(|c| c.partes.join("/")).collect();
    assert_eq!(nomes, vec!["p/src/programa.pr", "p/src/a.pr", "p/src/sub/b.pr"]);
    assert!(listar_prs(&cam("/p"), &vec![]).is_empty());
    // A programa.pr elsewhere is not the entry point.
    let es = vec![
        Entrada { caminho: cam("/p/src/a.pr"), eh_arquivo: true },
        Entrada { caminho: cam("/p/src/x/programa.pr"), eh_arquivo: true },
    ];
    let r = listar_prs(&cam("/p"), &es);
    assert_eq!(r[0].partes.join("/"), "p/src/a.pr");
}
