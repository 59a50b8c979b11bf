use pordosol::ambiente::{Ambiente, Disco, Variavel};
use pordosol::caminho::Caminho;
use pordosol::novo::{
    candidatos_templates, deve_escrever, erro_template, formatar_token_namespace, gerar_namespace,
    listar_templates_disponiveis, localizar_diretorio_templates, preparar_novo,
    renderizar_caminho_relativo, substituir_placeholders, target_padrao, template_legado, ErroNovo,
    TemplateVars,
};
use pordosol::projeto::{alvo_configurado, campo_texto, carregar_configuracao_projeto};

fn cam(p: &str) -> Caminho {
    let partes: Vec<String> = p.split('/').filter(|s| !s.is_empty()).map(|s| s.to_string()).collect();
    Caminho::novo("/".to_string(), partes)
}

fn texto(c: &Caminho) -> String {
    format!("{}{}", c.raiz, c.partes.join("/"))
}

fn vars() -> TemplateVars {
    TemplateVars {
        project_name: "meu_app".to_string(),
        namespace: "Meu.App".to_string(),
        target: "bytecode".to_string(),
    }
}

#[test]
fn alvo_padrao_por_template() {
    assert_eq!(target_padrao("biblioteca"), "llvm-ir");
    assert_eq!(target_padrao("console"), "bytecode");
    assert_eq!(target_padrao("web"), "bytecode");
}

#[test]
fn tokens_de_namespace() {
    assert_eq!(formatar_token_namespace("meu"), "Meu");
    assert_eq!(formatar_token_namespace("PROJETO"), "Projeto");
    assert_eq!(formatar_token_namespace("2x"), "_2x");
    assert_eq!(formatar_token_namespace("a-b"), "Ab");
    assert_eq!(formatar_token_namespace("--"), "Projeto");
}

#[test]
fn namespace_do_diretorio() {
    assert_eq!(gerar_namespace(&cam("/w/meu-projeto_2x")), "Meu.Projeto._2x");
    assert_eq!(gerar_namespace(&cam("/w/app")), "App");
    assert_eq!(gerar_namespace(&cam("/w/--")), "Projeto");
    assert_eq!(gerar_namespace(&cam("/")), "Projeto");
    assert_eq!(gerar_namespace(&cam("/w/__a..B__")), "A.B");
}

#[test]
fn placeholders() {
    let r = substituir_placeholders("{{PROJECT_NAME}} em {{NAMESPACE}} ({{TARGET}}) {{PROJECT_NAME}}", &vars());
    assert_eq!(r, "meu_app em Meu.App (bytecode) meu_app");
    assert_eq!(substituir_placeholders("sem nada", &vars()), "sem nada");
}

#[test]
fn caminho_relativo_renderizado() {
    let rel = Caminho::novo(String::new(), vec!["src".to_string(), "{{PROJECT_NAME}}.pr.tpl".to_string()]);
    let r = renderizar_caminho_relativo(&rel, &vars());
    assert_eq!(r.partes, vec!["src".to_string(), "meu_app.pr".to_string()]);
    let rel = Caminho::novo(String::new(), vec!["README.md".to_string()]);
    assert_eq!(renderizar_caminho_relativo(&rel, &vars()).partes, vec!["README.md".to_string()]);
}

#[test]
fn templates_embutidos_sem_diretorio() {
    let t = listar_templates_disponiveis(None);
    assert_eq!(t, vec!["biblioteca", "classe", "console", "web"]);
}

#[test]
fn templates_do_diretorio_ordenados() {
    let t = listar_templates_disponiveis(Some(vec!["web".to_string(), "api".to_string(), "console".to_string()]));
    assert_eq!(t, vec!["api", "console", "web"]);
    assert!(listar_templates_disponiveis(Some(vec![])).is_empty());
}

#[test]
fn novo_console_manifesto() {
    let arquivos = template_legado("console", "app").unwrap();
    assert_eq!(arquivos.len(), 3);
    assert_eq!(arquivos[0].caminho.partes, vec!["pordosol.proj"]);
    assert_eq!(arquivos[1].caminho.partes, vec!["src", "programa.pr"]);
    assert_eq!(arquivos[2].caminho.partes, vec!["README.md"]);
    let m = carregar_configuracao_projeto(Some(arquivos[0].conteudo.as_str())).unwrap();
    assert_eq!(campo_texto(&m, "nome").as_deref(), Some("app"));
    assert_eq!(campo_texto(&m, "tipo").as_deref(), Some("console"));
    assert_eq!(alvo_configurado(&m).as_deref(), Some("bytecode"));
    assert!(arquivos[1].conteudo.contains("Principal"));
    assert!(arquivos[2].conteudo.starts_with("# app\n"));
}

#[test]
fn novo_biblioteca_usa_llvm() {
    let arquivos = template_legado("biblioteca", "lib1").unwrap();
    let m = carregar_configuracao_projeto(Some(arquivos[0].conteudo.as_str())).unwrap();
    assert_eq!(alvo_configurado(&m).as_deref(), Some("llvm-ir"));
    assert!(template_legado("desconhecido", "x").is_none());
}

#[test]
fn sobrescrita() {
    assert!(deve_escrever(false, true));
    assert!(!deve_escrever(true, true));
    assert!(deve_escrever(true, false));
}

#[test]
fn preparo_do_novo() {
    let (t, v) = preparar_novo(&cam("/w/meu-app"), "  Biblioteca ").ok().unwrap();
    assert_eq!(t, "biblioteca");
    assert_eq!(v.project_name, "meu-app");
    assert_eq!(v.namespace, "Meu.App");
    assert_eq!(v.target, "llvm-ir");
    assert!(matches!(preparar_novo(&cam("/w/x"), "   "), Err(ErroNovo::TemplateVazio)));
}

#[test]
fn erros_de_template() {
    assert!(matches!(erro_template("x", &vec![]), ErroNovo::NenhumTemplate(_)));
    match erro_template("x", &vec!["console".to_string()]) {
        ErroNovo::TemplateNaoEncontrado(t) => assert_eq!(t, "x"),
        _ => panic!("template nao encontrado esperado"),
    }
}

#[test]
fn diretorio_de_templates() {
    let amb = Ambiente {
        variaveis: vec![Variavel { nome: "PORDOSOL_HOME".to_string(), valor: "/inst".to_string() }],
        executavel: Some(cam("/inst/bin/pordosol")),
        windows: false,
    };
    let embutido = cam("/src/templates");
    let cs = candidatos_templates(&amb, Some(&embutido));
    assert_eq!(cs.len(), 4);
    assert_eq!(cs[0].partes, vec!["/inst", "templates"]);
    assert_eq!(texto(&cs[1]), "/inst/bin/templates");
    assert_eq!(texto(&cs[2]), "/inst/templates");
    let d = Disco { arquivos: vec![], diretorios: vec![cam("/inst/templates")], programas: vec![] };
    assert_eq!(texto(&localizar_diretorio_templates(&amb, &d, Some(&embutido)).unwrap()), "/inst/templates");
    let vazio = Disco { arquivos: vec![], diretorios: vec![], programas: vec![] };
    assert!(localizar_diretorio_templates(&amb, &vazio, Some(&embutido)).is_none());
    assert_eq!(candidatos_templates(&amb, None).len(), 3);
}
