use pordosol::fontes::modificado_recentemente;
use pordosol::caminho::Caminho;
use pordosol::construcao::{
    artefato_compilacao, fontes_compilacao,
    erro_de_saida, escolher_alvo, flag_alvo, interpretar_alvo, interpretar_alvo_producao,
    planejar_compilacao, planejar_execucao, precisa_reconstruir, resolver_artefato, run_cmd,
    sucesso, Alvo, EntradaCompilacao, EntradaExecucao, ErroExecucao, Papel,
};

fn cam(p: &str) -> Caminho {
    let partes: Vec<String> = p.split('/').filter(|s| !s.is_empty()).map(|s| s.to_string()).collect();
    Caminho::novo("/".to_string(), partes)
}

fn texto(c: &Caminho) -> String {
    format!("{}{}", c.raiz, c.partes.join("/"))
}

const T0: i128 = 1_700_000_000_000_000_000;

#[test]
fn artefato_mais_antigo_reconstroi() {
    assert!(precisa_reconstruir(false, false, true, Some(T0 - 1), &vec![Some(T0)]));
}

#[test]
fn artefato_mais_novo_nao_reconstroi() {
    assert!(!precisa_reconstruir(false, false, true, Some(T0 + 1), &vec![Some(T0)]));
}

#[test]
fn mesmo_instante_nao_reconstroi() {
    assert!(!precisa_reconstruir(false, false, true, Some(T0), &vec![Some(T0)]));
}

#[test]
fn instante_ilegivel_reconstroi() {
    assert!(precisa_reconstruir(false, false, true, Some(T0 + 1), &vec![Some(T0), None]));
    assert!(precisa_reconstruir(false, false, true, None, &vec![Some(T0)]));
}

#[test]
fn forcar_ausente_e_sem_build() {
    assert!(precisa_reconstruir(true, false, true, Some(T0 + 1), &vec![Some(T0)]));
    assert!(precisa_reconstruir(false, false, false, None, &vec![]));
    assert!(!precisa_reconstruir(true, true, false, None, &vec![None]));
    // No sources and a present artifact: nothing is newer.
    assert!(!precisa_reconstruir(false, false, true, Some(T0), &vec![]));
    // An artifact whose time cannot be read is rebuilt, sources or not.
    assert!(precisa_reconstruir(false, false, true, None, &vec![]));
}

#[test]
fn build_duas_vezes() {
    let fontes = vec![Some(T0), Some(T0 + 5)];
    assert!(precisa_reconstruir(false, false, false, None, &fontes));
    assert!(!precisa_reconstruir(false, false, true, Some(T0 + 5), &fontes));
}

#[test]
fn caminho_do_artefato() {
    let build = cam("/p/build");
    let fontes = vec![cam("/p/src/programa.pr"), cam("/p/src/util.pr")];
    assert_eq!(texto(&resolver_artefato(None, &fontes, &build)), "/p/build/programa.pbc");
    let explicito = cam("/outro/x.pbc");
    assert_eq!(texto(&resolver_artefato(Some(&explicito), &fontes, &build)), "/outro/x.pbc");
    assert_eq!(texto(&resolver_artefato(None, &vec![cam("/p/src/a.b.pr")], &build)), "/p/build/a.b.pbc");
}

#[test]
fn alvos() {
    assert_eq!(interpretar_alvo(" BC "), (Alvo::Bytecode, false));
    assert_eq!(interpretar_alvo("llvm"), (Alvo::LlvmIr, false));
    assert_eq!(interpretar_alvo("LLVM-IR"), (Alvo::LlvmIr, false));
    assert_eq!(interpretar_alvo("cil-bytecode"), (Alvo::CilBytecode, false));
    assert_eq!(interpretar_alvo("console"), (Alvo::Console, false));
    assert_eq!(interpretar_alvo("universal"), (Alvo::Universal, false));
    assert_eq!(interpretar_alvo("wasm"), (Alvo::Bytecode, true));
    assert_eq!(interpretar_alvo("\u{3000}llvm\u{a0}\t"), (Alvo::LlvmIr, false));
    assert_eq!(interpretar_alvo_producao(" LLVM "), (Alvo::LlvmIr, false));
    assert_eq!(interpretar_alvo_producao("llvm-ir"), (Alvo::LlvmIr, false));
    assert_eq!(interpretar_alvo_producao("bytecode"), (Alvo::LlvmIr, true));
    assert_eq!(flag_alvo(Alvo::LlvmIr), "--target=llvm-ir");
    assert_eq!(flag_alvo(Alvo::Bytecode), "--target=bytecode");
}

#[test]
fn alvo_da_configuracao() {
    assert_eq!(escolher_alvo("bytecode", Some("llvm-ir")), "llvm-ir");
    assert_eq!(escolher_alvo("console", Some("llvm-ir")), "console");
    assert_eq!(escolher_alvo("bytecode", None), "bytecode");
}

#[test]
fn status_de_saida() {
    assert!(sucesso(Some(0)));
    assert!(!sucesso(Some(2)));
    assert!(!sucesso(None));
    assert!(erro_de_saida(Papel::Compilacao, Some(0)).is_none());
    assert!(matches!(erro_de_saida(Papel::Compilacao, Some(3)), Some(ErroExecucao::CompilacaoFalhou(Some(3)))));
    assert!(matches!(erro_de_saida(Papel::Execucao, None), Some(ErroExecucao::ExecucaoFalhou(None))));
}

fn entrada_compilacao(fontes: Vec<Caminho>, existe: bool) -> EntradaCompilacao {
    EntradaCompilacao {
        raiz: cam("/p"),
        caminho: cam("/p"),
        caminho_eh_arquivo: false,
        fontes_projeto: fontes,
        compilador: cam("/t/compilador"),
        compilador_existe: existe,
        saida: None,
        artefato_existe: false,
        instante_artefato: None,
        instantes_fontes: vec![],
    }
}

#[test]
fn compilacao_planejada() {
    let e = entrada_compilacao(vec![cam("/p/src/programa.pr"), cam("/p/src/b.pr")], true);
    let c = planejar_compilacao(&e, Alvo::LlvmIr).ok().unwrap().unwrap();
    assert_eq!(c.papel, Papel::Compilacao);
    assert_eq!(texto(&c.programa), "/t/compilador");
    assert_eq!(texto(c.diretorio.as_ref().unwrap()), "/p/build");
    assert_eq!(c.opcao.as_deref(), Some("--target=llvm-ir"));
    assert_eq!(c.argumentos.len(), 2);
}

#[test]
fn compilacao_de_um_arquivo() {
    let mut e = entrada_compilacao(vec![], true);
    e.caminho = cam("/p/src/so.pr");
    e.caminho_eh_arquivo = true;
    e.saida = Some(cam("/out"));
    let c = planejar_compilacao(&e, Alvo::Bytecode).ok().unwrap().unwrap();
    assert_eq!(c.argumentos.len(), 1);
    assert_eq!(texto(&c.argumentos[0]), "/p/src/so.pr");
    assert_eq!(texto(c.diretorio.as_ref().unwrap()), "/out");
}

#[test]
fn compilacao_sem_fontes_ou_compilador() {
    let e = entrada_compilacao(vec![], true);
    assert!(matches!(planejar_compilacao(&e, Alvo::Bytecode), Err(ErroExecucao::SemFontes(_))));
    let e = entrada_compilacao(vec![cam("/p/src/a.pr")], false);
    match planejar_compilacao(&e, Alvo::Bytecode) {
        Err(ErroExecucao::CompiladorAusente(c)) => assert_eq!(texto(&c), "/t/compilador"),
        _ => panic!("compilador ausente esperado"),
    }
}

fn entrada_execucao() -> EntradaExecucao {
    EntradaExecucao {
        raiz: cam("/p"),
        caminho: cam("/p"),
        caminho_eh_arquivo: false,
        arquivo: None,
        fontes_projeto: vec![cam("/p/src/programa.pr"), cam("/p/src/b.pr")],
        compilador: cam("/t/compilador"),
        compilador_existe: true,
        interpretador: cam("/t/interpretador"),
        interpretador_existe: true,
    }
}

#[test]
fn execucao_compila_e_roda() {
    let plano = planejar_execucao(&entrada_execucao()).ok().unwrap();
    assert_eq!(texto(&plano.artefato), "/p/build/programa.pbc");
    assert!(!plano.somente_artefato);
    let cs = run_cmd(&plano, false, false, false, None, &vec![Some(T0), Some(T0)]).ok().unwrap();
    assert_eq!(cs.len(), 2);
    assert_eq!(cs[0].papel, Papel::Compilacao);
    assert_eq!(cs[0].opcao.as_deref(), Some("--target=bytecode"));
    assert_eq!(texto(cs[0].diretorio.as_ref().unwrap()), "/p/build");
    assert_eq!(cs[1].papel, Papel::Execucao);
    assert_eq!(texto(&cs[1].argumentos[0]), "/p/build/programa.pbc");
    assert!(cs[1].diretorio.is_none());
}

#[test]
fn execucao_atualizada_so_roda() {
    let plano = planejar_execucao(&entrada_execucao()).ok().unwrap();
    let cs = run_cmd(&plano, false, false, true, Some(T0 + 1), &vec![Some(T0), Some(T0)]).ok().unwrap();
    assert_eq!(cs.len(), 1);
    assert_eq!(cs[0].papel, Papel::Execucao);
}

#[test]
fn execucao_sem_build_exige_artefato() {
    let plano = planejar_execucao(&entrada_execucao()).ok().unwrap();
    match run_cmd(&plano, false, true, false, None, &vec![]) {
        Err(ErroExecucao::ArtefatoAusente(c)) => assert_eq!(texto(&c), "/p/build/programa.pbc"),
        _ => panic!("artefato ausente esperado"),
    }
    let cs = run_cmd(&plano, true, true, true, Some(0), &vec![Some(T0)]).ok().unwrap();
    assert_eq!(cs.len(), 1);
}

#[test]
fn execucao_de_artefato_dado() {
    let mut e = entrada_execucao();
    e.arquivo = Some(cam("/x/app.pbc"));
    let plano = planejar_execucao(&e).ok().unwrap();
    assert!(plano.somente_artefato);
    assert_eq!(texto(&plano.artefato), "/x/app.pbc");
    let cs = run_cmd(&plano, true, false, false, None, &vec![]).ok().unwrap();
    assert_eq!(cs.len(), 1);
}

#[test]
fn execucao_de_fonte_dada() {
    let mut e = entrada_execucao();
    e.arquivo = Some(cam("/p/src/outro.pr"));
    let plano = planejar_execucao(&e).ok().unwrap();
    assert_eq!(plano.fontes.len(), 1);
    assert_eq!(texto(&plano.artefato), "/p/build/outro.pbc");
}

#[test]
fn execucao_erros() {
    let mut e = entrada_execucao();
    e.fontes_projeto = vec![];
    assert!(matches!(planejar_execucao(&e), Err(ErroExecucao::SemFontes(_))));
    let mut e = entrada_execucao();
    e.compilador_existe = false;
    e.interpretador_existe = false;
    assert!(matches!(planejar_execucao(&e), Err(ErroExecucao::CompiladorAusente(_))));
    let mut e = entrada_execucao();
    e.interpretador_existe = false;
    assert!(matches!(planejar_execucao(&e), Err(ErroExecucao::InterpretadorAusente(_))));
}

#[test]
fn recencia_de_um_dia() {
    assert!(modificado_recentemente(0));
    assert!(modificado_recentemente(86400));
    assert!(!modificado_recentemente(86401));
}

#[test]
fn build_duas_vezes_compila_uma() {
    let mut e = entrada_compilacao(vec![cam("/p/src/programa.pr"), cam("/p/src/b.pr")], true);
    assert_eq!(texto(&artefato_compilacao(&e).unwrap()), "/p/build/programa.pbc");
    assert_eq!(fontes_compilacao(&e).unwrap().len(), 2);
    e.instantes_fontes = vec![Some(T0), Some(T0 + 3)];
    // First build: no artifact yet.
    assert!(planejar_compilacao(&e, Alvo::Bytecode).ok().unwrap().is_some());
    // Second build: the artifact is newer than every source.
    e.artefato_existe = true;
    e.instante_artefato = Some(T0 + 10);
    assert!(planejar_compilacao(&e, Alvo::Bytecode).ok().unwrap().is_none());
    // A source changed since.
    e.instantes_fontes = vec![Some(T0 + 11), Some(T0 + 3)];
    assert!(planejar_compilacao(&e, Alvo::Bytecode).ok().unwrap().is_some());
    // Another target always compiles.
    e.instantes_fontes = vec![Some(T0), Some(T0)];
    assert!(planejar_compilacao(&e, Alvo::Bytecode).ok().unwrap().is_none());
    assert!(planejar_compilacao(&e, Alvo::LlvmIr).ok().unwrap().is_some());
    // No sources: no artifact.
    assert!(artefato_compilacao(&entrada_compilacao(vec![], true)).is_none());
}
