//! `cargo xtask new extractor <name>`: a new axum extractor in
//! `api/src/http/extractors`, registered in its `mod.rs`.

use vstd::prelude::*;
use crate::naming::{pascal_case, snake_case, to_pascal_case, to_snake_case};
use crate::modfile::contains_seq;
use crate::scaffold::{concat2, GenerateError};

verus! {

/// Where extractors live, relative to the repository root.
pub const EXTRACTORS_DIR: &'static str = "api/src/http/extractors";

/// Part 1 of the extractor template, around the type name.
pub const TEMPLATE_PART_0: &'static str = r#"use axum::{extract::FromRequestParts, http::request::Parts};

use crate::http::responses::ApiError; // TODO: adapte l'import si besoin

/// TODO: documenter ce que `"#;

/// Part 2 of the extractor template, around the type name.
pub const TEMPLATE_PART_1: &'static str = r#"` extrait et pourquoi.
#[derive(Debug, Clone)]
pub struct "#;

/// Part 3 of the extractor template, around the type name.
pub const TEMPLATE_PART_2: &'static str = r#" {
    // TODO: ajouter les champs
}

impl<S> FromRequestParts<S> for "#;

/// Part 4 of the extractor template, around the type name.
pub const TEMPLATE_PART_3: &'static str = r#"
where
    S: Send + Sync,
{
    type Rejection = ApiError; // TODO: adapte le type de rejection

    async fn from_request_parts(parts: &mut Parts, _state: &S) -> Result<Self, Self::Rejection> {
        // TODO: implémenter la logique d'extraction
        let _ = parts;
        todo!("implémenter "#;

/// Part 5 of the extractor template, around the type name.
pub const TEMPLATE_PART_4: &'static str = r#"::from_request_parts")
    }
}
"#;

/// The text of a new extractor file declaring the type `struct_name`.
pub open spec fn template_text(struct_name: Seq<char>) -> Seq<char> {
    TEMPLATE_PART_0@ + struct_name + TEMPLATE_PART_1@ + struct_name + TEMPLATE_PART_2@ + struct_name
        + TEMPLATE_PART_3@ + struct_name + TEMPLATE_PART_4@
}

/// The name of the extractor type: the PascalCase name followed by `Extractor`.
pub open spec fn extractor_struct_name(raw: Seq<char>) -> Seq<char> {
    pascal_case(raw) + "Extractor"@
}

/// The path of the new extractor file, relative to the repository root.
pub open spec fn extractor_file_path(snake: Seq<char>) -> Seq<char> {
    EXTRACTORS_DIR@ + "/"@ + snake + ".rs"@
}

/// The text of a new extractor file declaring the type `struct_name`.
pub fn render_template(struct_name: &str) -> (r: String)
    ensures
        r@ == template_text(struct_name@),
{
    let mut r = String::from_str(TEMPLATE_PART_0);
    r.append(struct_name);
    r.append(TEMPLATE_PART_1);
    r.append(struct_name);
    r.append(TEMPLATE_PART_2);
    r.append(struct_name);
    r.append(TEMPLATE_PART_3);
    r.append(struct_name);
    r.append(TEMPLATE_PART_4);
    r
}

/// What `new extractor` creates: the module name, the type name, the file
/// (relative to the repository root) and its text.
pub struct ExtractorPlan {
    pub snake: String,
    pub struct_name: String,
    pub path: String,
    pub content: String,
}

/// Plans the extractor named `raw_name`; refused when its snake_case form is empty.
pub fn plan_extractor(raw_name: &str) -> (r: Result<ExtractorPlan, GenerateError>)
    ensures
        r is Err <==> snake_case(raw_name@).len() == 0,
        r matches Err(e) ==> e == GenerateError::EmptyExtractorName,
        r matches Ok(p) ==> {
            &&& p.snake@ == snake_case(raw_name@)
            &&& p.struct_name@ == extractor_struct_name(raw_name@)
            &&& p.path@ == extractor_file_path(p.snake@)
            &&& p.content@ == template_text(p.struct_name@)
        },
{
    let snake = to_snake_case(raw_name);
    if snake.unicode_len() == 0 {
        return Err(GenerateError::EmptyExtractorName);
    }
    let pascal = to_pascal_case(raw_name);
    let struct_name = concat2(pascal.as_str(), "Extractor");
    let mut path = concat2(EXTRACTORS_DIR, "/");
    path.append(snake.as_str());
    path.append(".rs");
    let content = render_template(struct_name.as_str());
    Ok(ExtractorPlan { snake, struct_name, path, content })
}

/// `s` ends with `suffix`.
pub open spec fn ends_with(s: Seq<char>, suffix: Seq<char>) -> bool {
    suffix.len() <= s.len() && s.subrange(s.len() - suffix.len(), s.len() as int) == suffix
}

/// Whatever the type name, the extractor text is the whole template: its
/// length is the template's 623 characters plus four copies of the name, it
/// declares `pub struct {name} {`, and it ends by closing the `todo!` call,
/// the function and the `impl` block.
pub proof fn lemma_template_is_complete(n: Seq<char>)
    ensures
        template_text(n).len() == 623 + 4 * n.len(),
        contains_seq(template_text(n), "pub struct "@ + n + " {\n"@),
        ends_with(template_text(n), n + "::from_request_parts\")\n    }\n}\n"@),
{
    reveal_strlit(r#"use axum::{extract::FromRequestParts, http::request::Parts};

use crate::http::responses::ApiError; // TODO: adapte l'import si besoin

/// TODO: documenter ce que `"#);
    reveal_strlit(r#"` extrait et pourquoi.
#[derive(Debug, Clone)]
pub struct "#);
    reveal_strlit(r#" {
    // TODO: ajouter les champs
}

impl<S> FromRequestParts<S> for "#);
    reveal_strlit(r#"
where
    S: Send + Sync,
{
    type Rejection = ApiError; // TODO: adapte le type de rejection

    async fn from_request_parts(parts: &mut Parts, _state: &S) -> Result<Self, Self::Rejection> {
        // TODO: implémenter la logique d'extraction
        let _ = parts;
        todo!("implémenter "#);
    reveal_strlit(r#"::from_request_parts")
    }
}
"#);
    reveal_strlit("pub struct ");
    reveal_strlit(" {\n");
    reveal_strlit("::from_request_parts\")\n    }\n}\n");
    let t = template_text(n);
    let head = TEMPLATE_PART_0@ + n + TEMPLATE_PART_1@;
    let decl = "pub struct "@ + n + " {\n"@;
    let o: int = (TEMPLATE_PART_0@.len() + n.len() + 47) as int;
    assert(TEMPLATE_PART_1@.subrange(47, 58) =~= "pub struct "@);
    assert(TEMPLATE_PART_2@.subrange(0, 3) =~= " {\n"@);
    assert(t.subrange(o, o + decl.len() as int) =~= decl);
    let tail = n + TEMPLATE_PART_4@;
    assert(TEMPLATE_PART_4@ =~= "::from_request_parts\")\n    }\n}\n"@);
    assert(t.subrange(t.len() - tail.len(), t.len() as int) =~= tail);
}

} // verus!
