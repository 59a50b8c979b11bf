use pordosol::caminho::{localizar_raiz, niveis, niveis_raiz, Caminho};
use pordosol::texto::{haste_exec, para_minusculas, tem_extensao, texto_igual};

fn cam(p: &str) -> Caminho {
    let partes: Vec<String> = p.split('/').filter(|s| !s.is_empty()).map(|s| s.to_string()).collect();
    Caminho::novo("/".to_string(), partes)
}

fn texto(c: &Caminho) -> String {
    format!("{}{}", c.raiz, c.partes.join("/"))
}

#[test]
fn juntar_e_pai() {
    let c = cam("/a/b");
    assert_eq!(texto(&c.juntar("src")), "/a/b/src");
    assert_eq!(texto(&c.pai().unwrap()), "/a");
    assert!(cam("/").pai().is_none());
    assert!(c.mesmo(&cam("/a/b")));
    assert!(!c.mesmo(&cam("/a/c")));
}

#[test]
fn niveis_param_no_topo() {
    let v = niveis(&cam("/a/b"), 6);
    let t: Vec<String> = v.iter().map(texto).collect();
    assert_eq!(t, vec!["/a/b", "/a", "/"]);
    let v = niveis(&cam("/a/b/c/d/e/f/g"), 5);
    assert_eq!(v.len(), 5);
    assert_eq!(texto(&v[4]), "/a/b/c");
}

#[test]
fn raiz_encontrada_de_qualquer_descendente() {
    // The project lives at /w/proj; only that directory holds `src`.
    let projeto = cam("/w/proj");
    for p in ["/w/proj", "/w/proj/src", "/w/proj/src/mod", "/w/proj/src/a/b"] {
        let c = cam(p);
        let nv = niveis_raiz(&c, false);
        let tem: Vec<bool> = nv.iter().map(|n| n.mesmo(&projeto)).collect();
        let r = localizar_raiz(&c, false, &tem);
        assert_eq!(texto(&r), "/w/proj", "from {}", p);
    }
    // A file inside: the search starts at its directory.
    let f = cam("/w/proj/src/programa.pr");
    let nv = niveis_raiz(&f, true);
    assert_eq!(texto(&nv[0]), "/w/proj/src");
    let tem: Vec<bool> = nv.iter().map(|n| n.mesmo(&projeto)).collect();
    assert_eq!(texto(&localizar_raiz(&f, true, &tem)), "/w/proj");
}

#[test]
fn raiz_sem_src_volta_ao_caminho() {
    let c = cam("/x/y/z");
    let r = localizar_raiz(&c, false, &vec![false; 5]);
    assert_eq!(texto(&r), "/x/y/z");
    // Missing answers count as no.
    let r = localizar_raiz(&c, false, &vec![]);
    assert_eq!(texto(&r), "/x/y/z");
}

#[test]
fn raiz_alem_de_cinco_niveis_nao_e_vista() {
    let c = cam("/p/a/b/c/d/e");
    let nv = niveis_raiz(&c, false);
    assert_eq!(nv.len(), 5);
    assert_eq!(texto(&nv[4]), "/p/a");
    // /p holds src but lies six levels up: out of reach.
    let tem: Vec<bool> = nv.iter().map(|n| n.mesmo(&cam("/p"))).collect();
    assert_eq!(texto(&localizar_raiz(&c, false, &tem)), "/p/a/b/c/d/e");
}

#[test]
fn texto_auxiliares() {
    assert_eq!(para_minusculas("LLVM-IR"), "llvm-ir");
    assert!(texto_igual("abc", "abc"));
    assert!(!texto_igual("abc", "abd"));
    assert_eq!(haste_exec("programa.pr"), "programa");
    assert_eq!(haste_exec("a.b.c"), "a.b");
    assert_eq!(haste_exec(".oculto"), ".oculto");
    assert!(tem_extensao("x.pr", "pr"));
    assert!(!tem_extensao("x.pbc", "pr"));
    assert!(!tem_extensao(".pr", "pr"));
}
