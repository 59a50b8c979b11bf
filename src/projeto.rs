//! The project manifest: a JSON document read and written through
//! serde_json, its fields, and the editing of its dependency map.
use vstd::prelude::*;
use crate::texto::{minusculas, para_minusculas, texto_igual};

verus! {

#[verifier::external_type_specification]
#[verifier::external_body]
pub struct ExNumero(serde_json::Number);

#[verifier::external_type_specification]
#[verifier::external_body]
pub struct ExValor(serde_json::Value);

/// A JSON value. An object keeps its members in order; a number is kept as
/// serde_json holds it.
pub enum Json {
    Nulo,
    Booleano(bool),
    Numero(serde_json::Number),
    Texto(String),
    Lista(Vec<Json>),
    Objeto(Vec<Membro>),
}

/// One member of a JSON object.
pub struct Membro {
    pub chave: String,
    pub valor: Json,
}

/// Relies on the variants of `serde_json::Value` and on iterating a
/// `serde_json::Map`: converts a parsed value into a `Json`, one variant for
/// another, members in the map's order.
#[verifier::external_body]
fn de_valor(v: serde_json::Value) -> Json {
    match v {
        serde_json::Value::Null => Json::Nulo,
        serde_json::Value::Bool(b) => Json::Booleano(b),
        serde_json::Value::Number(n) => Json::Numero(n),
        serde_json::Value::String(s) => Json::Texto(s),
        serde_json::Value::Array(a) => Json::Lista(a.into_iter().map(de_valor).collect()),
        serde_json::Value::Object(o) => Json::Objeto(
            o.into_iter().map(|(chave, v)| Membro { chave, valor: de_valor(v) }).collect(),
        ),
    }
}

/// Relies on the variants of `serde_json::Value` and on collecting a
/// `serde_json::Map`: converts a `Json` into a value to print, one variant
/// for another.
#[verifier::external_body]
fn para_valor(j: &Json) -> serde_json::Value {
    match j {
        Json::Nulo => serde_json::Value::Null,
        Json::Booleano(b) => serde_json::Value::Bool(*b),
        Json::Numero(n) => serde_json::Value::Number(n.clone()),
        Json::Texto(s) => serde_json::Value::String(s.clone()),
        Json::Lista(a) => serde_json::Value::Array(a.iter().map(para_valor).collect()),
        Json::Objeto(ms) => serde_json::Value::Object(
            ms.iter().map(|m| (m.chave.clone(), para_valor(&m.valor))).collect(),
        ),
    }
}

/// What `serde_json::from_str` reads from a text: none when it is not JSON.
pub uninterp spec fn json_lido(texto: Seq<char>) -> Option<Json>;

/// The text `serde_json::to_string_pretty` writes for a value.
pub uninterp spec fn json_escrito(j: Json) -> Seq<char>;

/// The text `serde_json::to_string` writes for a value.
pub uninterp spec fn json_compacto_de(j: Json) -> Seq<char>;

/// Relies on `serde_json::from_str` into a `serde_json::Value`: none when the
/// text is not JSON; the result depends on the text alone.
#[verifier::external_body]
fn analisar_json(texto: &str) -> (r: Option<Json>)
    ensures
        r == json_lido(texto@),
{
    serde_json::from_str::<serde_json::Value>(texto).ok().map(de_valor)
}

/// Relies on `serde_json::to_string_pretty`, which does not fail on a value
/// whose keys are strings.
#[verifier::external_body]
fn json_formatado(j: &Json) -> (r: String)
    ensures
        r@ == json_escrito(*j),
{
    serde_json::to_string_pretty(&para_valor(j)).unwrap_or_default()
}

/// Relies on `serde_json::to_string`, the compact form, which does not fail
/// on a value whose keys are strings.
#[verifier::external_body]
fn json_compacto(j: &Json) -> (r: String)
    ensures
        r@ == json_compacto_de(*j),
{
    serde_json::to_string(&para_valor(j)).unwrap_or_default()
}

/// The manifest read from its text, when there is a manifest file and its
/// text is JSON.
pub fn carregar_configuracao_projeto(conteudo: Option<&str>) -> (r: Option<Json>)
    ensures
        r == match conteudo {
            Some(t) => json_lido(t@),
            None => None,
        },
{
    match conteudo {
        Some(t) => analisar_json(t),
        None => None,
    }
}

/// The manifest's text, as written back whole to its file.
pub fn formatar_manifesto(manifesto: &Json) -> (r: String)
    ensures
        r@ == json_escrito(*manifesto),
{
    json_formatado(manifesto)
}

/// The first member whose key is `k`, looking from index `i` on.
pub open spec fn indice_chave(ms: Seq<Membro>, k: Seq<char>, i: int) -> Option<int>
    decreases ms.len() - i,
{
    if i < 0 || i >= ms.len() {
        None
    } else if ms[i].chave@ == k {
        Some(i)
    } else {
        indice_chave(ms, k, i + 1)
    }
}

proof fn lemma_indice_chave(ms: Seq<Membro>, k: Seq<char>, i: int)
    requires
        0 <= i,
    ensures
        match indice_chave(ms, k, i) {
            Some(j) => i <= j < ms.len() && ms[j].chave@ == k,
            None => forall|j: int| i <= j < ms.len() ==> ms[j].chave@ != k,
        },
    decreases ms.len() - i,
{
    if i < ms.len() && ms[i].chave@ != k {
        lemma_indice_chave(ms, k, i + 1);
    }
}

/// The value of member `k` of an object.
pub open spec fn campo_m(j: Json, k: Seq<char>) -> Option<Json> {
    match j {
        Json::Objeto(ms) => match indice_chave(ms@, k, 0) {
            Some(i) => Some(ms@[i].valor),
            None => None,
        },
        _ => None,
    }
}

/// The text of a value that is a string.
pub open spec fn texto_m(j: Option<Json>) -> Option<Seq<char>> {
    match j {
        Some(Json::Texto(s)) => Some(s@),
        _ => None,
    }
}

/// Where the member `k` is among `ms`.
pub fn indice_de(ms: &Vec<Membro>, k: &str) -> (r: Option<usize>)
    ensures
        match r {
            Some(i) => indice_chave(ms@, k@, 0) == Some(i as int) && i < ms@.len(),
            None => indice_chave(ms@, k@, 0).is_none(),
        },
{
    let mut i: usize = 0;
    while i < ms.len()
        invariant
            i <= ms@.len(),
            indice_chave(ms@, k@, 0) == indice_chave(ms@, k@, i as int),
        decreases ms@.len() - i,
    {
        if texto_igual(ms[i].chave.as_str(), k) {
            return Some(i);
        }
        i = i + 1;
    }
    None
}

/// The member `k` of an object.
pub fn campo<'a>(j: &'a Json, k: &str) -> (r: Option<&'a Json>)
    ensures
        match r {
            Some(v) => campo_m(*j, k@) == Some(*v),
            None => campo_m(*j, k@).is_none(),
        },
{
    match j {
        Json::Objeto(ms) => match indice_de(ms, k) {
            Some(i) => Some(&ms[i].valor),
            None => None,
        },
        _ => None,
    }
}

/// The text of the member `k` of an object, when it is a string.
pub fn campo_texto(j: &Json, k: &str) -> (r: Option<String>)
    ensures
        match r {
            Some(s) => texto_m(campo_m(*j, k@)) == Some(s@),
            None => texto_m(campo_m(*j, k@)).is_none(),
        },
{
    match campo(j, k) {
        Some(Json::Texto(s)) => Some(s.clone()),
        _ => None,
    }
}

/// The default target a manifest configures: `configuracao.target_padrao`.
pub open spec fn alvo_configurado_m(j: Json) -> Option<Seq<char>> {
    match campo_m(j, "configuracao"@) {
        Some(c) => texto_m(campo_m(c, "target_padrao"@)),
        None => None,
    }
}

/// The default target a manifest configures, when it names one.
pub fn alvo_configurado(manifesto: &Json) -> (r: Option<String>)
    ensures
        match r {
            Some(s) => alvo_configurado_m(*manifesto) == Some(s@),
            None => alvo_configurado_m(*manifesto).is_none(),
        },
{
    match campo(manifesto, "configuracao") {
        Some(c) => campo_texto(c, "target_padrao"),
        None => None,
    }
}

/// What `dep` was asked to do.
#[derive(PartialEq, Eq, Structural, Clone, Copy, Debug)]
pub enum AcaoDep {
    Adicionar,
    Remover,
    Listar,
}

/// The action an action name denotes, whatever its case.
pub open spec fn acao_m(s: Seq<char>) -> Option<AcaoDep> {
    let l = minusculas(s);
    if l == "add"@ {
        Some(AcaoDep::Adicionar)
    } else if l == "remove"@ || l == "rm"@ {
        Some(AcaoDep::Remover)
    } else if l == "list"@ || l == "ls"@ || l == "listar"@ {
        Some(AcaoDep::Listar)
    } else {
        None
    }
}

/// Why `dep` could not do what it was asked.
pub enum ErroDep {
    /// The manifest has no `dependencias` object.
    SemDependencias,
    /// Adding or removing needs a dependency name.
    SemNome,
    /// An action other than add, remove or list (lower-cased as given).
    AcaoDesconhecida(String),
}

/// What `dep` did.
pub enum ResultadoDep {
    /// The dependency was added, or updated when `ja_existia`; the manifest
    /// to write back.
    Gravada { manifesto: Json, ja_existia: bool },
    /// The dependency was removed; the manifest to write back.
    Removida { manifesto: Json },
    /// There was no such dependency: nothing to write.
    NaoEncontrada,
    /// The dependencies, in order.
    Lista(Vec<Membro>),
}

/// The members of the manifest and where its dependency object is, when it
/// is an object with one.
pub open spec fn deps_m(j: Json) -> Option<(Seq<Membro>, int, Seq<Membro>)> {
    match j {
        Json::Objeto(ms) => match indice_chave(ms@, "dependencias"@, 0) {
            Some(i) => match ms@[i].valor {
                Json::Objeto(ds) => Some((ms@, i, ds@)),
                _ => None,
            },
            None => None,
        },
        _ => None,
    }
}

/// The members of an object.
pub open spec fn membros_de(j: Json) -> Option<Seq<Membro>> {
    match j {
        Json::Objeto(ms) => Some(ms@),
        _ => None,
    }
}

/// The members of the object at index `i` of the object `m`.
pub open spec fn deps_em(m: Json, i: int) -> Seq<Membro> {
    membros_de(membros_de(m).unwrap()[i].valor).unwrap()
}

/// `depois` is the manifest `antes` with its dependency object, at index
/// `i`, holding `novas` instead; every other member is kept.
pub open spec fn troca_deps(antes: Seq<Membro>, i: int, depois: Json, novas: Seq<Membro>) -> bool {
    match depois {
        Json::Objeto(ms) => {
            &&& ms@.len() == antes.len()
            &&& ms@[i].chave@ == "dependencias"@
            &&& membros_de(ms@[i].valor) == Some(novas)
            &&& forall|j: int| 0 <= j < antes.len() && j != i ==> ms@[j] == antes[j]
        },
        _ => false,
    }
}

/// The value recorded for a dependency: `{"path": caminho}` for a local one,
/// else its version, `*` when none is given.
pub open spec fn valor_dep_m(v: Json, versao: Option<Seq<char>>, caminho: Option<Seq<char>>) -> bool {
    match caminho {
        Some(c) => match v {
            Json::Objeto(ms) => ms@.len() == 1 && ms@[0].chave@ == "path"@ && texto_m(
                Some(ms@[0].valor),
            ) == Some(c),
            _ => false,
        },
        None => texto_m(Some(v)) == Some(
            match versao {
                Some(x) => x,
                None => "*"@,
            },
        ),
    }
}

/// `depois` is `antes` with the member `k` set to a value `v` that meets
/// `valor_dep_m`: replaced in place when present, else added at the end.
pub open spec fn com_chave(
    antes: Seq<Membro>,
    depois: Seq<Membro>,
    k: Seq<char>,
    versao: Option<Seq<char>>,
    caminho: Option<Seq<char>>,
) -> bool {
    match indice_chave(antes, k, 0) {
        Some(i) => {
            &&& depois.len() == antes.len()
            &&& depois[i].chave@ == k
            &&& valor_dep_m(depois[i].valor, versao, caminho)
            &&& forall|j: int| 0 <= j < antes.len() && j != i ==> depois[j] == antes[j]
        },
        None => {
            &&& depois.len() == antes.len() + 1
            &&& depois.last().chave@ == k
            &&& valor_dep_m(depois.last().valor, versao, caminho)
            &&& forall|j: int| 0 <= j < antes.len() ==> depois[j] == antes[j]
        },
    }
}

pub open spec fn opt_m(s: Option<&str>) -> Option<Seq<char>> {
    match s {
        Some(x) => Some(x@),
        None => None,
    }
}

/// The value recorded for a new dependency.
fn valor_dep(versao: Option<&str>, caminho: Option<&str>) -> (r: Json)
    ensures
        valor_dep_m(r, opt_m(versao), opt_m(caminho)),
{
    match caminho {
        Some(c) => {
            let mut ms: Vec<Membro> = Vec::new();
            ms.push(Membro { chave: String::from_str("path"), valor: Json::Texto(String::from_str(c)) });
            Json::Objeto(ms)
        },
        None => match versao {
            Some(v) => Json::Texto(String::from_str(v)),
            None => Json::Texto(String::from_str("*")),
        },
    }
}

/// Edits or lists the manifest's dependencies. The manifest must hold a
/// `dependencias` object, then the action must be add, remove (`rm`) or list
/// (`ls`, `listar`), in any case, and adding or removing needs a name.
/// Adding sets the name to `{"path": caminho_local}` when a local path is
/// given, else to the version (`*` when none); removing drops the name, or
/// reports that it was not there.
pub fn dep_cmd(
    acao: &str,
    nome: Option<&str>,
    versao: Option<&str>,
    caminho_local: Option<&str>,
    manifesto: Json,
) -> (r: Result<ResultadoDep, ErroDep>)
    ensures
        deps_m(manifesto) is None ==> r matches Err(ErroDep::SemDependencias),
        deps_m(manifesto) is Some && acao_m(acao@) is None ==> (r matches Err(
            ErroDep::AcaoDesconhecida(a),
        ) && a@ == minusculas(acao@)),
        deps_m(manifesto) is Some && acao_m(acao@) is Some && acao_m(acao@) != Some(AcaoDep::Listar)
            && nome is None ==> r matches Err(ErroDep::SemNome),
        ({
            let (ms, i, ds) = deps_m(manifesto).unwrap();
            deps_m(manifesto) is Some && acao_m(acao@) == Some(AcaoDep::Adicionar) && nome is Some
                ==> (r matches Ok(ResultadoDep::Gravada { manifesto: m, ja_existia: e }) && e == indice_chave(
                ds,
                nome.unwrap()@,
                0,
            ) is Some && troca_deps(ms, i, m, deps_em(m, i)) && com_chave(
                ds,
                deps_em(m, i),
                nome.unwrap()@,
                opt_m(versao),
                opt_m(caminho_local),
            ))
        }),
        ({
            let (ms, i, ds) = deps_m(manifesto).unwrap();
            deps_m(manifesto) is Some && acao_m(acao@) == Some(AcaoDep::Remover) && nome is Some
                ==> (match indice_chave(ds, nome.unwrap()@, 0) {
                Some(k) => r matches Ok(ResultadoDep::Removida { manifesto: m }) && troca_deps(
                    ms,
                    i,
                    m,
                    ds.remove(k),
                ),
                None => r matches Ok(ResultadoDep::NaoEncontrada),
            })
        }),
        ({
            let (ms, i, ds) = deps_m(manifesto).unwrap();
            deps_m(manifesto) is Some && acao_m(acao@) == Some(AcaoDep::Listar) ==> (r matches Ok(
                ResultadoDep::Lista(l),
            ) && l@ == ds)
        }),
{
    let mut membros = match manifesto {
        Json::Objeto(ms) => ms,
        _ => return Err(ErroDep::SemDependencias),
    };
    let i = match indice_de(&membros, "dependencias") {
        Some(i) => i,
        None => return Err(ErroDep::SemDependencias),
    };
    match &membros[i].valor {
        Json::Objeto(_) => {},
        _ => return Err(ErroDep::SemDependencias),
    }
    let ghost ms0 = membros@;
    let a = para_minusculas(acao);
    let acao_dep = if texto_igual(a.as_str(), "add") {
        AcaoDep::Adicionar
    } else if texto_igual(a.as_str(), "remove") || texto_igual(a.as_str(), "rm") {
        AcaoDep::Remover
    } else if texto_igual(a.as_str(), "list") || texto_igual(a.as_str(), "ls") || texto_igual(
        a.as_str(),
        "listar",
    ) {
        AcaoDep::Listar
    } else {
        return Err(ErroDep::AcaoDesconhecida(a));
    };
    assert(acao_m(acao@) == Some(acao_dep));
    let nome = match acao_dep {
        AcaoDep::Listar => {
            let m = membros.remove(i);
            return match m.valor {
                Json::Objeto(ds) => Ok(ResultadoDep::Lista(ds)),
                _ => Err(ErroDep::SemDependencias),
            };
        },
        _ => match nome {
            Some(n) => n,
            None => return Err(ErroDep::SemNome),
        },
    };
    let m = membros.remove(i);
    let mut ds = match m.valor {
        Json::Objeto(ds) => ds,
        _ => return Err(ErroDep::SemDependencias),
    };
    let ghost ds0 = ds@;
    let pos = indice_de(&ds, nome);
    match acao_dep {
        AcaoDep::Adicionar => {
            let valor = valor_dep(versao, caminho_local);
            let ja_existia = pos.is_some();
            match pos {
                Some(k) => {
                    proof {
                        lemma_indice_chave(ds0, nome@, 0);
                    }
                    let antigo = ds.remove(k);
                    ds.insert(k, Membro { chave: antigo.chave, valor });
                    assert(ds@ =~= ds0.update(k as int, ds@[k as int]));
                    assert(com_chave(ds0, ds@, nome@, opt_m(versao), opt_m(caminho_local)));
                },
                None => {
                    ds.push(Membro { chave: String::from_str(nome), valor });
                    assert(com_chave(ds0, ds@, nome@, opt_m(versao), opt_m(caminho_local)));
                },
            }
            let ghost novas = ds@;
            membros.insert(i, Membro { chave: String::from_str("dependencias"), valor: Json::Objeto(ds) });
            let r = Json::Objeto(membros);
            assert(troca_deps(ms0, i as int, r, novas));
            assert(deps_em(r, i as int) == novas);
            Ok(ResultadoDep::Gravada { manifesto: r, ja_existia })
        },
        _ => {
            match pos {
                Some(k) => {
                    ds.remove(k);
                    let ghost novas = ds@;
                    assert(novas =~= ds0.remove(k as int));
                    membros.insert(
                        i,
                        Membro { chave: String::from_str("dependencias"), valor: Json::Objeto(ds) },
                    );
                    let r = Json::Objeto(membros);
                    assert(troca_deps(ms0, i as int, r, novas));
                    Ok(ResultadoDep::Removida { manifesto: r })
                },
                None => Ok(ResultadoDep::NaoEncontrada),
            }
        },
    }
}

/// How `dep list` shows a dependency: `nome = versao` for a version; for an
/// object, its `path` in JSON, or the whole object; any other value in JSON.
pub fn descrever_dep(m: &Membro) -> (r: String)
    ensures
        texto_m(Some(m.valor)) is Some ==> r@ == m.chave@ + " = "@ + texto_m(Some(m.valor)).unwrap(),
        membros_de(m.valor) is Some && indice_chave(membros_de(m.valor).unwrap(), "path"@, 0) is Some
            ==> r@ == m.chave@ + " (path = "@ + json_compacto_de(
            campo_m(m.valor, "path"@).unwrap(),
        ) + ")"@,
        membros_de(m.valor) is Some && indice_chave(membros_de(m.valor).unwrap(), "path"@, 0) is None
            ==> r@ == m.chave@ + " (obj) = "@ + json_compacto_de(m.valor),
        texto_m(Some(m.valor)) is None && membros_de(m.valor) is None ==> r@ == m.chave@ + " = "@
            + json_compacto_de(m.valor),
{
    match &m.valor {
        Json::Texto(s) => m.chave.clone().concat(" = ").concat(s.as_str()),
        Json::Objeto(ms) => match indice_de(ms, "path") {
            Some(k) => {
                let j = json_compacto(&ms[k].valor);
                m.chave.clone().concat(" (path = ").concat(j.as_str()).concat(")")
            },
            None => {
                let j = json_compacto(&m.valor);
                m.chave.clone().concat(" (obj) = ").concat(j.as_str())
            },
        },
        _ => {
            let j = json_compacto(&m.valor);
            m.chave.clone().concat(" = ").concat(j.as_str())
        },
    }
}

} // verus!
