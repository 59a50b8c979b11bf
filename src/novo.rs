//! Scaffolding new projects: template variables, placeholder substitution,
//! and the built-in templates used when no template directory is found.
use vstd::prelude::*;
use crate::ambiente::{Ambiente, Disco, eh_diretorio_m, valor_desde, valor_variavel};
use crate::caminho::{Caminho, CaminhoM, de_texto_m, juntar_m, nome_m, subir_m, vistas};
use crate::texto::{
    aparado, aparar, eh_alfanumerico, eh_alfanumerico_exec, eh_digito, eh_digito_exec, maiuscula,
    maiuscula_exec, minuscula_exec, minusculas, para_minusculas, texto_de, texto_igual,
};

verus! {

/// The values that replace a template's placeholders.
pub struct TemplateVars {
    pub project_name: String,
    pub namespace: String,
    pub target: String,
}

/// The compile target a template's projects default to.
pub open spec fn target_padrao_m(template: Seq<char>) -> Seq<char> {
    if template == "biblioteca"@ { "llvm-ir"@ } else { "bytecode"@ }
}

/// The compile target a template's projects default to: LLVM for a library,
/// bytecode for anything else.
pub fn target_padrao(template: &str) -> (r: String)
    ensures
        r@ == target_padrao_m(template@),
{
    if texto_igual(template, "biblioteca") {
        String::from_str("llvm-ir")
    } else {
        String::from_str("bytecode")
    }
}

/// The alphanumeric characters of `s`, in order.
pub open spec fn so_alfanumericos(s: Seq<char>) -> Seq<char>
    decreases s.len(),
{
    if s.len() == 0 {
        s
    } else if eh_alfanumerico(s.last()) {
        so_alfanumericos(s.drop_last()).push(s.last())
    } else {
        so_alfanumericos(s.drop_last())
    }
}

/// A namespace segment: of the token's alphanumeric characters, the first
/// upper-cased (or kept behind an `_` when a digit) and the rest
/// lower-cased; `Projeto` when there are none.
pub open spec fn formatar_token_m(token: Seq<char>) -> Seq<char> {
    let cs = so_alfanumericos(token);
    if cs.len() == 0 {
        "Projeto"@
    } else {
        let primeiro = if eh_digito(cs[0]) { seq!['_', cs[0]] } else { seq![maiuscula(cs[0])] };
        primeiro + minusculas(cs.drop_first())
    }
}

/// Formats one token of a project name as a namespace segment.
pub fn formatar_token_namespace(token: &str) -> (r: String)
    ensures
        r@ == formatar_token_m(token@),
{
    let n = token.unicode_len();
    let mut cs: Vec<char> = Vec::new();
    let mut i: usize = 0;
    while i < n
        invariant
            n == token@.len(),
            i <= n,
            cs@ == so_alfanumericos(token@.subrange(0, i as int)),
        decreases n - i,
    {
        let c = token.get_char(i);
        assert(token@.subrange(0, i + 1).drop_last() =~= token@.subrange(0, i as int));
        if eh_alfanumerico_exec(c) {
            cs.push(c);
        }
        i = i + 1;
    }
    assert(token@.subrange(0, n as int) =~= token@);
    if cs.len() == 0 {
        return String::from_str("Projeto");
    }
    let mut out: Vec<char> = Vec::new();
    if eh_digito_exec(cs[0]) {
        out.push('_');
        out.push(cs[0]);
    } else {
        out.push(maiuscula_exec(cs[0]));
    }
    let ghost primeiro = out@;
    let mut j: usize = 1;
    while j < cs.len()
        invariant
            1 <= j <= cs@.len(),
            out@ == primeiro + minusculas(cs@.subrange(1, j as int)),
        decreases cs@.len() - j,
    {
        out.push(minuscula_exec(cs[j]));
        j = j + 1;
        assert(out@ =~= primeiro + minusculas(cs@.subrange(1, j as int)));
    }
    assert(cs@.subrange(1, j as int) =~= cs@.drop_first());
    texto_de(&out)
}

/// Splitting a name on its non-alphanumeric characters: the tokens already
/// closed, and the one being read.
pub open spec fn partes_nome(s: Seq<char>) -> (Seq<Seq<char>>, Seq<char>)
    decreases s.len(),
{
    if s.len() == 0 {
        (Seq::empty(), Seq::empty())
    } else {
        let (ts, atual) = partes_nome(s.drop_last());
        if eh_alfanumerico(s.last()) {
            (ts, atual.push(s.last()))
        } else if atual.len() > 0 {
            (ts.push(atual), Seq::empty())
        } else {
            (ts, Seq::empty())
        }
    }
}

/// The non-empty runs of alphanumeric characters of a name, in order.
pub open spec fn tokens_m(s: Seq<char>) -> Seq<Seq<char>> {
    let (ts, atual) = partes_nome(s);
    if atual.len() > 0 { ts.push(atual) } else { ts }
}

/// Texts joined with dots between them.
pub open spec fn juntar_pontos(ts: Seq<Seq<char>>) -> Seq<char>
    decreases ts.len(),
{
    if ts.len() == 0 {
        Seq::empty()
    } else if ts.len() == 1 {
        ts[0]
    } else {
        juntar_pontos(ts.drop_last()) + "."@ + ts.last()
    }
}

/// The namespace derived from a project's directory name: its tokens, each
/// formatted, joined with dots; `Projeto` when it has none.
pub open spec fn namespace_m(nome: Seq<char>) -> Seq<char> {
    let ts = tokens_m(nome);
    if ts.len() == 0 {
        "Projeto"@
    } else {
        juntar_pontos(ts.map_values(|t: Seq<char>| formatar_token_m(t)))
    }
}

/// The name a path's namespace is derived from: its last segment, or
/// `Projeto` at a root.
pub open spec fn nome_projeto_ns_m(destino: CaminhoM) -> Seq<char> {
    match nome_m(destino) {
        Some(n) => n,
        None => "Projeto"@,
    }
}

/// Adds a formatted token to the namespace being built.
fn fechar_token(out: &mut Vec<char>, fechados: Ghost<Seq<Seq<char>>>, vazio: bool, token: &Vec<char>)
    requires
        vazio == (fechados@.len() == 0),
        old(out)@ == juntar_pontos(fechados@.map_values(|t: Seq<char>| formatar_token_m(t))),
    ensures
        final(out)@ == juntar_pontos(
            fechados@.push(token@).map_values(|t: Seq<char>| formatar_token_m(t)),
        ),
{
    let f = formatar_token_namespace(texto_de(token).as_str());
    let ghost antes = fechados@.map_values(|t: Seq<char>| formatar_token_m(t));
    let ghost depois = fechados@.push(token@).map_values(|t: Seq<char>| formatar_token_m(t));
    assert(depois.drop_last() =~= antes);
    if !vazio {
        out.push('.');
    }
    let fs = f.as_str();
    let n = fs.unicode_len();
    let ghost base = out@;
    let mut i: usize = 0;
    while i < n
        invariant
            n == fs@.len(),
            i <= n,
            out@ == base + fs@.subrange(0, i as int),
        decreases n - i,
    {
        out.push(fs.get_char(i));
        i = i + 1;
        assert(out@ =~= base + fs@.subrange(0, i as int));
    }
    assert(fs@.subrange(0, n as int) =~= fs@);
    proof {
        reveal_strlit(".");
        assert(depois.last() == formatar_token_m(token@));
        if fechados@.len() == 0 {
            assert(depois.len() == 1);
            assert(out@ =~= depois[0]);
        } else {
            assert(base =~= old(out)@ + "."@);
            assert(out@ =~= juntar_pontos(antes) + "."@ + depois.last());
        }
    }
}

/// The namespace for a project created at `destino` (see `namespace_m`).
pub fn gerar_namespace(destino: &Caminho) -> (r: String)
    ensures
        r@ == namespace_m(nome_projeto_ns_m(destino@)),
{
    let nome: String = match destino.nome() {
        Some(n) => n.clone(),
        None => String::from_str("Projeto"),
    };
    let s = nome.as_str();
    let n = s.unicode_len();
    let mut out: Vec<char> = Vec::new();
    let mut atual: Vec<char> = Vec::new();
    let ghost mut fechados: Seq<Seq<char>> = Seq::empty();
    let mut algum = false;
    assert(s@.subrange(0, 0) =~= Seq::<char>::empty());
    assert(out@ =~= juntar_pontos(fechados.map_values(|t: Seq<char>| formatar_token_m(t))));
    let mut i: usize = 0;
    while i < n
        invariant
            n == s@.len(),
            i <= n,
            partes_nome(s@.subrange(0, i as int)) == (fechados, atual@),
            algum == (fechados.len() > 0),
            out@ == juntar_pontos(fechados.map_values(|t: Seq<char>| formatar_token_m(t))),
        decreases n - i,
    {
        let c = s.get_char(i);
        assert(s@.subrange(0, i + 1).drop_last() =~= s@.subrange(0, i as int));
        if eh_alfanumerico_exec(c) {
            atual.push(c);
        } else if atual.len() > 0 {
            fechar_token(&mut out, Ghost(fechados), !algum, &atual);
            proof {
                fechados = fechados.push(atual@);
            }
            algum = true;
            atual = Vec::new();
            assert(atual@ =~= Seq::<char>::empty());
        }
        i = i + 1;
    }
    assert(s@.subrange(0, n as int) =~= s@);
    if atual.len() > 0 {
        fechar_token(&mut out, Ghost(fechados), !algum, &atual);
        proof {
            fechados = fechados.push(atual@);
        }
        algum = true;
    }
    if !algum {
        return String::from_str("Projeto");
    }
    texto_de(&out)
}

/// `s` with every occurrence of a non-empty `de` replaced by `para`, the
/// occurrences taken from the left without overlapping.
pub open spec fn substituido(s: Seq<char>, de: Seq<char>, para: Seq<char>) -> Seq<char>
    decreases s.len(),
{
    if de.len() == 0 || s.len() < de.len() {
        s
    } else if s.subrange(0, de.len() as int) == de {
        para + substituido(s.subrange(de.len() as int, s.len() as int), de, para)
    } else {
        seq![s[0]] + substituido(s.drop_first(), de, para)
    }
}

/// Relies on `str::replace`, which replaces the matches of a non-empty
/// pattern found from the left, without overlapping.
#[verifier::external_body]
fn substituir(s: &str, de: &str, para: &str) -> (r: String)
    requires
        de@.len() > 0,
    ensures
        r@ == substituido(s@, de@, para@),
{
    s.replace(de, para)
}

/// A text with the three placeholders replaced, in this order.
pub open spec fn placeholders_m(valor: Seq<char>, vars: &TemplateVars) -> Seq<char> {
    substituido(
        substituido(
            substituido(valor, "{{PROJECT_NAME}}"@, vars.project_name@),
            "{{NAMESPACE}}"@,
            vars.namespace@,
        ),
        "{{TARGET}}"@,
        vars.target@,
    )
}

/// Replaces `{{PROJECT_NAME}}`, then `{{NAMESPACE}}`, then `{{TARGET}}`.
pub fn substituir_placeholders(valor: &str, vars: &TemplateVars) -> (r: String)
    ensures
        r@ == placeholders_m(valor@, vars),
{
    proof {
        reveal_strlit("{{PROJECT_NAME}}");
        reveal_strlit("{{NAMESPACE}}");
        reveal_strlit("{{TARGET}}");
    }
    let a = substituir(valor, "{{PROJECT_NAME}}", vars.project_name.as_str());
    let b = substituir(a.as_str(), "{{NAMESPACE}}", vars.namespace.as_str());
    substituir(b.as_str(), "{{TARGET}}", vars.target.as_str())
}

/// A name without the template-marker suffix `.tpl`, if it has one.
pub open spec fn sem_tpl(s: Seq<char>) -> Seq<char> {
    if s.len() >= 4 && s.subrange(s.len() - 4, s.len() as int) == ".tpl"@ {
        s.subrange(0, s.len() - 4)
    } else {
        s
    }
}

/// The output name of one segment of a template's path.
pub open spec fn segmento_m(nome: Seq<char>, vars: &TemplateVars) -> Seq<char> {
    sem_tpl(placeholders_m(nome, vars))
}

/// The relative output path of a template file: placeholders replaced in
/// each segment, and `.tpl` dropped from the end of each.
pub open spec fn caminho_relativo_m(rel: Seq<Seq<char>>, vars: &TemplateVars) -> CaminhoM {
    (Seq::empty(), rel.map_values(|p: Seq<char>| segmento_m(p, vars)))
}

/// The output name of one segment of a template's path.
fn renderizar_segmento(nome: &str, vars: &TemplateVars) -> (r: String)
    ensures
        r@ == segmento_m(nome@, vars),
{
    let s = substituir_placeholders(nome, vars);
    let n = s.as_str().unicode_len();
    proof {
        reveal_strlit(".tpl");
    }
    if n >= 4 && texto_igual(s.as_str().substring_char(n - 4, n), ".tpl") {
        String::from_str(s.as_str().substring_char(0, n - 4))
    } else {
        s
    }
}

/// The relative output path of a template file whose path inside the
/// template is `rel`.
pub fn renderizar_caminho_relativo(rel: &Caminho, vars: &TemplateVars) -> (r: Caminho)
    ensures
        r@ == caminho_relativo_m(rel@.1, vars),
{
    let mut partes: Vec<String> = Vec::new();
    let mut i: usize = 0;
    while i < rel.partes.len()
        invariant
            i <= rel.partes@.len(),
            partes@.len() == i,
            forall|k: int| 0 <= k < i ==> #[trigger] partes@[k]@ == segmento_m(rel.partes@[k]@, vars),
        decreases rel.partes@.len() - i,
    {
        partes.push(renderizar_segmento(rel.partes[i].as_str(), vars));
        i = i + 1;
    }
    let r = Caminho { raiz: String::new(), partes };
    assert(r@.1 =~= caminho_relativo_m(rel@.1, vars).1);
    r
}

/// The beginning of a built-in manifest, up to the project's name.
pub open spec fn inicio_manifesto_m() -> Seq<char> {
    "{\n    \"nome\": \""@
}

/// The rest of a built-in manifest, after the name, for each template.
pub open spec fn fim_manifesto_m(template: Seq<char>) -> Seq<char> {
    if template == "biblioteca"@ {
        "\",\n    \"tipo\": \"biblioteca\",\n    \"versao\": \"1.0.0\",\n    \"descricao\": \"Uma biblioteca em Por do Sol\",\n    \"autor\": \"\",\n    \"dependencias\": {},\n    \"configuracao\": {\n        \"target_padrao\": \"llvm-ir\",\n        \"otimizacao\": true\n    }\n}"@
    } else if template == "classe"@ {
        "\",\n    \"tipo\": \"classe\",\n    \"versao\": \"1.0.0\",\n    \"descricao\": \"Uma classe em Por do Sol\",\n    \"autor\": \"\",\n    \"dependencias\": {},\n    \"configuracao\": {\n        \"target_padrao\": \"bytecode\",\n        \"otimizacao\": false\n    }\n}"@
    } else if template == "web"@ {
        "\",\n    \"tipo\": \"web\",\n    \"versao\": \"1.0.0\",\n    \"descricao\": \"Uma aplicacao web em Por do Sol\",\n    \"autor\": \"\",\n    \"dependencias\": {},\n    \"configuracao\": {\n        \"target_padrao\": \"bytecode\",\n        \"otimizacao\": false\n    }\n}"@
    } else {
        "\",\n    \"tipo\": \"console\",\n    \"versao\": \"1.0.0\",\n    \"descricao\": \"Uma aplicacao console em Por do Sol\",\n    \"autor\": \"\",\n    \"dependencias\": {},\n    \"configuracao\": {\n        \"target_padrao\": \"bytecode\",\n        \"otimizacao\": false\n    }\n}"@
    }
}

/// The example program of each built-in template.
pub open spec fn programa_exemplo_m(template: Seq<char>) -> Seq<char> {
    if template == "biblioteca"@ {
        "// biblioteca.pr - template de biblioteca\nusando Sistema.IO;\n\nclasse publica MinhaClasse\n{\n    inteiro valor { get; set; }\n\n    publico MinhaClasse(inteiro valorInicial)\n    {\n        este.valor = valorInicial;\n    }\n\n    publico inteiro ObterValorDobrado()\n    {\n        retorne este.valor * 2;\n    }\n}\n"@
    } else if template == "classe"@ {
        "// classe.pr - template de classe\nusando Sistema.IO;\n\nclasse MinhaClasse\n{\n    texto nome { get; set; }\n    inteiro idade { get; set; }\n\n    publico MinhaClasse(texto nome, inteiro idade)\n    {\n        este.nome = nome;\n        este.idade = idade;\n    }\n\n    publico vazio ApresentarSe()\n    {\n        imprima($\"Ola, eu sou {este.nome} e tenho {este.idade} anos.\");\n    }\n}\n\nfuncao vazio Principal()\n{\n    var pessoa = novo MinhaClasse(\"Joao\", 25);\n    pessoa.ApresentarSe();\n}\n"@
    } else if template == "web"@ {
        "// programa.pr - template web inicial\nfuncao vazio Principal()\n{\n    imprima(\"Projeto web Por do Sol criado.\");\n    imprima(\"Proximo passo: configure rotas e servidor no seu framework web.\");\n}\n"@
    } else {
        "// programa.pr - exemplo inicial\nfuncao vazio Principal()\n{\n    imprima(\"Ola, Por do Sol!\");\n\n    var nome = \"Mundo\";\n    var numero = 42;\n\n    imprima($\"Ola, {nome}! O numero e {numero}\");\n}\n"@
    }
}

/// The rest of a built-in README, after its title.
pub open spec fn fim_readme_m() -> Seq<char> {
    "\n\nUm projeto em Por do Sol.\n\n## Como usar\n\n### Compilar e executar\n```bash\npordosol run\n```\n\n### Apenas compilar\n```bash\npordosol build\n```\n\n### Compilar para producao\n```bash\npordosol producao\n```\n\n### Limpar build\n```bash\npordosol clean\n```\n\n## Estrutura do projeto\n\n- `src/` - Codigo fonte\n- `build/` - Artefatos de build\n- `pordosol.proj` - Configuracao do projeto\n"@
}

/// The rest of a built-in manifest, after the name.
fn fim_manifesto(template: &str) -> (r: String)
    ensures
        r@ == fim_manifesto_m(template@),
{
    if texto_igual(template, "biblioteca") {
        String::from_str("\",\n    \"tipo\": \"biblioteca\",\n    \"versao\": \"1.0.0\",\n    \"descricao\": \"Uma biblioteca em Por do Sol\",\n    \"autor\": \"\",\n    \"dependencias\": {},\n    \"configuracao\": {\n        \"target_padrao\": \"llvm-ir\",\n        \"otimizacao\": true\n    }\n}")
    } else if texto_igual(template, "classe") {
        String::from_str("\",\n    \"tipo\": \"classe\",\n    \"versao\": \"1.0.0\",\n    \"descricao\": \"Uma classe em Por do Sol\",\n    \"autor\": \"\",\n    \"dependencias\": {},\n    \"configuracao\": {\n        \"target_padrao\": \"bytecode\",\n        \"otimizacao\": false\n    }\n}")
    } else if texto_igual(template, "web") {
        String::from_str("\",\n    \"tipo\": \"web\",\n    \"versao\": \"1.0.0\",\n    \"descricao\": \"Uma aplicacao web em Por do Sol\",\n    \"autor\": \"\",\n    \"dependencias\": {},\n    \"configuracao\": {\n        \"target_padrao\": \"bytecode\",\n        \"otimizacao\": false\n    }\n}")
    } else {
        String::from_str("\",\n    \"tipo\": \"console\",\n    \"versao\": \"1.0.0\",\n    \"descricao\": \"Uma aplicacao console em Por do Sol\",\n    \"autor\": \"\",\n    \"dependencias\": {},\n    \"configuracao\": {\n        \"target_padrao\": \"bytecode\",\n        \"otimizacao\": false\n    }\n}")
    }
}

/// The example program of a built-in template.
fn programa_exemplo(template: &str) -> (r: String)
    ensures
        r@ == programa_exemplo_m(template@),
{
    if texto_igual(template, "biblioteca") {
        String::from_str("// biblioteca.pr - template de biblioteca\nusando Sistema.IO;\n\nclasse publica MinhaClasse\n{\n    inteiro valor { get; set; }\n\n    publico MinhaClasse(inteiro valorInicial)\n    {\n        este.valor = valorInicial;\n    }\n\n    publico inteiro ObterValorDobrado()\n    {\n        retorne este.valor * 2;\n    }\n}\n")
    } else if texto_igual(template, "classe") {
        String::from_str("// classe.pr - template de classe\nusando Sistema.IO;\n\nclasse MinhaClasse\n{\n    texto nome { get; set; }\n    inteiro idade { get; set; }\n\n    publico MinhaClasse(texto nome, inteiro idade)\n    {\n        este.nome = nome;\n        este.idade = idade;\n    }\n\n    publico vazio ApresentarSe()\n    {\n        imprima($\"Ola, eu sou {este.nome} e tenho {este.idade} anos.\");\n    }\n}\n\nfuncao vazio Principal()\n{\n    var pessoa = novo MinhaClasse(\"Joao\", 25);\n    pessoa.ApresentarSe();\n}\n")
    } else if texto_igual(template, "web") {
        String::from_str("// programa.pr - template web inicial\nfuncao vazio Principal()\n{\n    imprima(\"Projeto web Por do Sol criado.\");\n    imprima(\"Proximo passo: configure rotas e servidor no seu framework web.\");\n}\n")
    } else {
        String::from_str("// programa.pr - exemplo inicial\nfuncao vazio Principal()\n{\n    imprima(\"Ola, Por do Sol!\");\n\n    var nome = \"Mundo\";\n    var numero = 42;\n\n    imprima($\"Ola, {nome}! O numero e {numero}\");\n}\n")
    }
}

/// The rest of a built-in README, after its title.
fn fim_readme() -> (r: String)
    ensures
        r@ == fim_readme_m(),
{
    String::from_str("\n\nUm projeto em Por do Sol.\n\n## Como usar\n\n### Compilar e executar\n```bash\npordosol run\n```\n\n### Apenas compilar\n```bash\npordosol build\n```\n\n### Compilar para producao\n```bash\npordosol producao\n```\n\n### Limpar build\n```bash\npordosol clean\n```\n\n## Estrutura do projeto\n\n- `src/` - Codigo fonte\n- `build/` - Artefatos de build\n- `pordosol.proj` - Configuracao do projeto\n")
}

/// The beginning of a built-in manifest.
fn inicio_manifesto() -> (r: String)
    ensures
        r@ == inicio_manifesto_m(),
{
    String::from_str("{\n    \"nome\": \"")
}

/// Whether a template name is one of the four built in.
pub open spec fn eh_embutido_m(t: Seq<char>) -> bool {
    t == "console"@ || t == "web"@ || t == "biblioteca"@ || t == "classe"@
}

/// A file a template produces: its path relative to the project, and its text.
pub struct ArquivoNovo {
    pub caminho: Caminho,
    pub conteudo: String,
}

pub open spec fn relativo_m(partes: Seq<Seq<char>>) -> CaminhoM {
    (Seq::empty(), partes)
}

/// The files of a built-in template for a project named `nome`: the
/// manifest, the example program, and the README; none for a name that is
/// not built in.
pub open spec fn arquivos_legado_m(template: Seq<char>, nome: Seq<char>) -> Option<
    Seq<(CaminhoM, Seq<char>)>,
> {
    if !eh_embutido_m(template) {
        None
    } else {
        Some(
            seq![
                (relativo_m(seq!["pordosol.proj"@]), inicio_manifesto_m() + nome + fim_manifesto_m(template)),
                (relativo_m(seq!["src"@, "programa.pr"@]), programa_exemplo_m(template)),
                (relativo_m(seq!["README.md"@]), "# "@ + nome + fim_readme_m()),
            ],
        )
    }
}

pub open spec fn arquivos_m(v: Seq<ArquivoNovo>) -> Seq<(CaminhoM, Seq<char>)> {
    v.map_values(|a: ArquivoNovo| (a.caminho@, a.conteudo@))
}

fn relativo(a: &str, b: Option<&str>) -> (r: Caminho)
    ensures
        r@ == relativo_m(
            match b {
                Some(b) => seq![a@, b@],
                None => seq![a@],
            },
        ),
{
    let mut partes: Vec<String> = Vec::new();
    partes.push(String::from_str(a));
    if let Some(b) = b {
        partes.push(String::from_str(b));
    }
    let r = Caminho { raiz: String::new(), partes };
    assert(r@.1 =~= match b {
        Some(b) => seq![a@, b@],
        None => seq![a@],
    });
    r
}

/// The files of the built-in template `template` for a project named
/// `nome_projeto` (see `arquivos_legado_m`).
pub fn template_legado(template: &str, nome_projeto: &str) -> (r: Option<Vec<ArquivoNovo>>)
    ensures
        match r {
            Some(v) => arquivos_legado_m(template@, nome_projeto@) == Some(arquivos_m(v@)),
            None => arquivos_legado_m(template@, nome_projeto@).is_none(),
        },
{
    if !(texto_igual(template, "console") || texto_igual(template, "web") || texto_igual(
        template,
        "biblioteca",
    ) || texto_igual(template, "classe")) {
        return None;
    }
    let mut v: Vec<ArquivoNovo> = Vec::new();
    v.push(
        ArquivoNovo {
            caminho: relativo("pordosol.proj", None),
            conteudo: inicio_manifesto().concat(nome_projeto).concat(fim_manifesto(template).as_str()),
        },
    );
    v.push(
        ArquivoNovo {
            caminho: relativo("src", Some("programa.pr")),
            conteudo: programa_exemplo(template),
        },
    );
    v.push(
        ArquivoNovo {
            caminho: relativo("README.md", None),
            conteudo: String::from_str("# ").concat(nome_projeto).concat(fim_readme().as_str()),
        },
    );
    assert(arquivos_m(v@) =~= arquivos_legado_m(template@, nome_projeto@).unwrap());
    Some(v)
}

/// Whether a template file is written: an existing one is left alone when
/// overwriting is refused, and replaced otherwise.
pub fn deve_escrever(existe: bool, nao_sobrescrever: bool) -> (r: bool)
    ensures
        r == (!existe || !nao_sobrescrever),
{
    !existe || !nao_sobrescrever
}

/// The built-in template names, in order.
pub open spec fn embutidos_m() -> Seq<Seq<char>> {
    seq!["biblioteca"@, "classe"@, "console"@, "web"@]
}

/// Whether `a` comes before `b`, or equals it, comparing characters by
/// their code points, a prefix first.
pub open spec fn ate(a: Seq<char>, b: Seq<char>) -> bool
    decreases a.len(),
{
    if a.len() == 0 {
        true
    } else if b.len() == 0 {
        false
    } else if a[0] != b[0] {
        (a[0] as u32) < (b[0] as u32)
    } else {
        ate(a.drop_first(), b.drop_first())
    }
}

pub open spec fn textos_m(v: Seq<String>) -> Seq<Seq<char>> {
    v.map_values(|s: String| s@)
}

/// Relies on `slice::sort` over `String`, whose order compares the UTF-8
/// bytes, which is the order of the code points: the same names, ascending.
#[verifier::external_body]
fn ordenar(v: Vec<String>) -> (r: Vec<String>)
    ensures
        textos_m(r@).to_multiset() == textos_m(v@).to_multiset(),
        forall|i: int, j: int| 0 <= i < j < r@.len() ==> ate(#[trigger] r@[i]@, #[trigger] r@[j]@),
{
    let mut v = v;
    v.sort();
    v
}

/// The templates that `new list` offers: the names of the directories of the
/// template directory, sorted, when there is one; else the four built in.
pub fn listar_templates_disponiveis(encontrados: Option<Vec<String>>) -> (r: Vec<String>)
    ensures
        match encontrados {
            Some(v) => textos_m(r@).to_multiset() == textos_m(v@).to_multiset() && forall|
                i: int,
                j: int,
            | 0 <= i < j < r@.len() ==> ate(#[trigger] r@[i]@, #[trigger] r@[j]@),
            None => textos_m(r@) == embutidos_m(),
        },
{
    match encontrados {
        Some(v) => ordenar(v),
        None => {
            let mut r: Vec<String> = Vec::new();
            r.push(String::from_str("biblioteca"));
            r.push(String::from_str("classe"));
            r.push(String::from_str("console"));
            r.push(String::from_str("web"));
            assert(textos_m(r@) =~= embutidos_m());
            r
        },
    }
}

/// Where a template directory may be, in the order tried: the directory
/// `PORDOSOL_TEMPLATES_PATH` names, `<PORDOSOL_HOME>/templates`, `templates`
/// beside the running executable and one level up, then `embutido`, the
/// directory the program was built with, when known.
pub open spec fn candidatos_templates_m(amb: &Ambiente, embutido: Option<CaminhoM>) -> Seq<CaminhoM> {
    let var = match valor_desde(amb.variaveis@, "PORDOSOL_TEMPLATES_PATH"@, 0) {
        Some(v) => seq![de_texto_m(v)],
        None => Seq::empty(),
    };
    let home = match valor_desde(amb.variaveis@, "PORDOSOL_HOME"@, 0) {
        Some(h) => seq![juntar_m(de_texto_m(h), "templates"@)],
        None => Seq::empty(),
    };
    let exe = match amb.executavel {
        Some(e) => if e@.1.len() > 0 {
            let dir = subir_m(e@, 1);
            if dir.1.len() > 0 {
                seq![juntar_m(dir, "templates"@), juntar_m(subir_m(dir, 1), "templates"@)]
            } else {
                seq![juntar_m(dir, "templates"@)]
            }
        } else {
            Seq::empty()
        },
        None => Seq::empty(),
    };
    var + home + exe + match embutido {
        Some(e) => seq![e],
        None => Seq::empty(),
    }
}

pub open spec fn embutido_m(embutido: Option<&Caminho>) -> Option<CaminhoM> {
    match embutido {
        Some(e) => Some(e@),
        None => None,
    }
}

/// Every place a template directory may be, in the order tried.
pub fn candidatos_templates(amb: &Ambiente, embutido: Option<&Caminho>) -> (r: Vec<Caminho>)
    ensures
        vistas(r@) == candidatos_templates_m(amb, embutido_m(embutido)),
{
    let mut out: Vec<Caminho> = Vec::new();
    if let Some(v) = valor_variavel(amb, "PORDOSOL_TEMPLATES_PATH") {
        out.push(Caminho::de_texto(v.as_str()));
    }
    if let Some(h) = valor_variavel(amb, "PORDOSOL_HOME") {
        out.push(Caminho::de_texto(h.as_str()).juntar("templates"));
    }
    if let Some(e) = &amb.executavel {
        if let Some(dir) = e.pai() {
            out.push(dir.juntar("templates"));
            if let Some(pai) = dir.pai() {
                out.push(pai.juntar("templates"));
            }
        }
    }
    if let Some(e) = embutido {
        out.push(e.copia());
    }
    assert(vistas(out@) =~= candidatos_templates_m(amb, embutido_m(embutido)));
    out
}

/// The first directory among `cs`, looking from index `i` on.
pub open spec fn primeiro_diretorio(d: &Disco, cs: Seq<CaminhoM>, i: int) -> Option<CaminhoM>
    decreases cs.len() - i,
{
    if i < 0 || i >= cs.len() {
        None
    } else if eh_diretorio_m(d, cs[i]) {
        Some(cs[i])
    } else {
        primeiro_diretorio(d, cs, i + 1)
    }
}

/// The template directory: the first of its candidates that is a directory.
pub fn localizar_diretorio_templates(amb: &Ambiente, d: &Disco, embutido: Option<&Caminho>) -> (r: Option<Caminho>)
    ensures
        match r {
            Some(c) => primeiro_diretorio(d, candidatos_templates_m(amb, embutido_m(embutido)), 0)
                == Some(c@),
            None => primeiro_diretorio(d, candidatos_templates_m(amb, embutido_m(embutido)), 0).is_none(),
        },
{
    let cs = candidatos_templates(amb, embutido);
    let ghost cm = vistas(cs@);
    let mut i: usize = 0;
    while i < cs.len()
        invariant
            cm == vistas(cs@),
            cm == candidatos_templates_m(amb, embutido_m(embutido)),
            i <= cs@.len(),
            primeiro_diretorio(d, cm, 0) == primeiro_diretorio(d, cm, i as int),
        decreases cs@.len() - i,
    {
        assert(cm[i as int] == cs@[i as int]@);
        if d.eh_diretorio(&cs[i]) {
            return Some(cs[i].copia());
        }
        i = i + 1;
    }
    None
}

/// Why a project could not be created.
pub enum ErroNovo {
    /// The template name is blank.
    TemplateVazio,
    /// No template of that name, while others exist.
    TemplateNaoEncontrado(String),
    /// No template of that name, and none was found at all.
    NenhumTemplate(String),
}

/// A template name as used: trimmed and lower-cased.
pub open spec fn template_final_m(t: Seq<char>) -> Seq<char> {
    minusculas(aparado(t))
}

/// The project's name: the last segment of its directory, empty at a root.
pub open spec fn nome_projeto_m(raiz: CaminhoM) -> Seq<char> {
    match nome_m(raiz) {
        Some(n) => n,
        None => Seq::empty(),
    }
}

/// The template name to use and the placeholder values for a project
/// created at `raiz`; a blank template name is refused.
pub fn preparar_novo(raiz: &Caminho, template: &str) -> (r: Result<(String, TemplateVars), ErroNovo>)
    ensures
        template_final_m(template@).len() == 0 ==> r matches Err(ErroNovo::TemplateVazio),
        template_final_m(template@).len() > 0 ==> (r matches Ok((t, vars)) && t@ == template_final_m(
            template@,
        ) && vars.project_name@ == nome_projeto_m(raiz@) && vars.namespace@ == namespace_m(
            nome_projeto_ns_m(raiz@),
        ) && vars.target@ == target_padrao_m(template_final_m(template@))),
{
    let t = para_minusculas(aparar(template).as_str());
    if t.as_str().unicode_len() == 0 {
        return Err(ErroNovo::TemplateVazio);
    }
    let project_name = match raiz.nome() {
        Some(n) => n.clone(),
        None => String::new(),
    };
    let vars = TemplateVars {
        project_name,
        namespace: gerar_namespace(raiz),
        target: target_padrao(t.as_str()),
    };
    Ok((t, vars))
}

/// The error for a template found nowhere, given the templates available.
pub fn erro_template(template: &str, disponiveis: &Vec<String>) -> (r: ErroNovo)
    ensures
        disponiveis@.len() == 0 ==> (r matches ErroNovo::NenhumTemplate(t) && t@ == template@),
        disponiveis@.len() > 0 ==> (r matches ErroNovo::TemplateNaoEncontrado(t) && t@ == template@),
{
    if disponiveis.len() == 0 {
        ErroNovo::NenhumTemplate(String::from_str(template))
    } else {
        ErroNovo::TemplateNaoEncontrado(String::from_str(template))
    }
}

} // verus!
