//! `cargo xtask new domain <name>`: a new domain under `api/src/domains`,
//! with its standard submodules, registered in `domains/mod.rs`.

use vstd::prelude::*;
use crate::naming::{snake_case, to_snake_case};
use crate::scaffold::{concat2, planned_views, GenerateError, PlannedFile};

verus! {

/// Where domains live, relative to the repository root.
pub const DOMAINS_DIR: &'static str = "api/src/domains";

/// The standard submodules of a domain, on the model of `domains/auth` and
/// `domains/user`.
pub open spec fn submodule_names() -> Seq<Seq<char>> {
    seq![
        "dtos"@,
        "entities"@,
        "errors"@,
        "events"@,
        "listeners"@,
        "repositories"@,
        "services"@,
    ]
}

/// The standard submodules of a domain.
pub fn submodules() -> (r: Vec<&'static str>)
    ensures
        r@.len() == submodule_names().len(),
        forall|i: int| 0 <= i < r@.len() ==> #[trigger] r@[i]@ == submodule_names()[i],
{
    let r = vec!["dtos", "entities", "errors", "events", "listeners", "repositories", "services"];
    assert(r@.len() == 7);
    r
}

/// The placeholder text of submodule `sub` of domain `domain`.
pub open spec fn submodule_text(sub: Seq<char>, domain: Seq<char>) -> Seq<char> {
    "//! TODO: "@ + sub + " du domaine `"@ + domain + "`\n"@
}

/// `pub mod {sub};` lines, one for each name in `subs`.
pub open spec fn mod_decls(subs: Seq<Seq<char>>) -> Seq<char>
    decreases subs.len(),
{
    if subs.len() == 0 {
        seq![]
    } else {
        mod_decls(subs.drop_last()) + "pub mod "@ + subs.last() + ";\n"@
    }
}

/// The directory of domain `snake`, relative to the repository root.
pub open spec fn domain_dir(snake: Seq<char>) -> Seq<char> {
    DOMAINS_DIR@ + "/"@ + snake
}

/// The files of domain `snake`, relative to the repository root: each
/// submodule's `mod.rs`, then the domain's `mod.rs` declaring them.
pub open spec fn domain_files(snake: Seq<char>) -> Seq<(Seq<char>, Seq<char>)> {
    let dir = domain_dir(snake);
    let subs = submodule_names();
    Seq::new(
        subs.len(),
        |i: int| (dir + "/"@ + subs[i] + "/mod.rs"@, submodule_text(subs[i], snake)),
    ).push((dir + "/mod.rs"@, mod_decls(subs)))
}

/// The placeholder text of submodule `sub` of domain `domain`.
pub fn render_submodule(sub: &str, domain: &str) -> (r: String)
    ensures
        r@ == submodule_text(sub@, domain@),
{
    let mut r = String::from_str("//! TODO: ");
    r.append(sub);
    r.append(" du domaine `");
    r.append(domain);
    r.append("`\n");
    r
}

/// The `mod.rs` of a new domain: one `pub mod` line per standard submodule.
pub fn render_domain_mod() -> (r: String)
    ensures
        r@ == mod_decls(submodule_names()),
{
    let subs = submodules();
    let mut out = String::new();
    let mut i: usize = 0;
    while i < subs.len()
        invariant
            i <= subs@.len() == submodule_names().len(),
            forall|j: int| 0 <= j < subs@.len() ==> #[trigger] subs@[j]@ == submodule_names()[j],
            out@ == mod_decls(submodule_names().take(i as int)),
        decreases subs@.len() - i,
    {
        assert(submodule_names().take(i + 1).drop_last() =~= submodule_names().take(i as int));
        out.append("pub mod ");
        out.append(subs[i]);
        out.append(";\n");
        i = i + 1;
    }
    assert(submodule_names().take(subs@.len() as int) =~= submodule_names());
    out
}

/// What `new domain` creates: the domain's module name, its directory and its
/// files, relative to the repository root.
pub struct DomainPlan {
    pub snake: String,
    pub dir: String,
    pub files: Vec<PlannedFile>,
}

/// Plans the domain named `raw_name`; refused when its snake_case form is empty.
pub fn plan_domain(raw_name: &str) -> (r: Result<DomainPlan, GenerateError>)
    ensures
        r is Err <==> snake_case(raw_name@).len() == 0,
        r matches Err(e) ==> e == GenerateError::EmptyDomainName,
        r matches Ok(p) ==> {
            &&& p.snake@ == snake_case(raw_name@)
            &&& p.dir@ == domain_dir(p.snake@)
            &&& planned_views(p.files@) == domain_files(p.snake@)
        },
{
    let snake = to_snake_case(raw_name);
    if snake.unicode_len() == 0 {
        return Err(GenerateError::EmptyDomainName);
    }
    let mut dir = concat2(DOMAINS_DIR, "/");
    dir.append(snake.as_str());
    let subs = submodules();
    let mut files: Vec<PlannedFile> = Vec::new();
    let mut i: usize = 0;
    while i < subs.len()
        invariant
            i <= subs@.len() == submodule_names().len(),
            forall|j: int| 0 <= j < subs@.len() ==> #[trigger] subs@[j]@ == submodule_names()[j],
            dir@ == domain_dir(snake@),
            planned_views(files@) == domain_files(snake@).take(i as int),
        decreases subs@.len() - i,
    {
        let mut path = concat2(dir.as_str(), "/");
        path.append(subs[i]);
        path.append("/mod.rs");
        let content = render_submodule(subs[i], snake.as_str());
        let ghost before = planned_views(files@);
        files.push(PlannedFile { path, content });
        assert(planned_views(files@) =~= before.push(domain_files(snake@)[i as int]));
        assert(domain_files(snake@).take(i + 1) =~= domain_files(snake@).take(i as int).push(
            domain_files(snake@)[i as int],
        ));
        i = i + 1;
    }
    let path = concat2(dir.as_str(), "/mod.rs");
    let content = render_domain_mod();
    let ghost before = planned_views(files@);
    files.push(PlannedFile { path, content });
    assert(planned_views(files@) =~= before.push(domain_files(snake@)[7]));
    assert(domain_files(snake@) =~= domain_files(snake@).take(7).push(domain_files(snake@)[7]));
    Ok(DomainPlan { snake, dir, files })
}

/// A new domain has one `mod.rs` per standard submodule (dtos, entities,
/// errors, events, listeners, repositories, services), each a placeholder
/// naming its submodule and domain, then the domain's `mod.rs` declaring the
/// seven submodules in that order.
pub proof fn lemma_domain_files_table(snake: Seq<char>)
    ensures
        domain_files(snake).len() == 8,
        forall|i: int|
            0 <= i < 7 ==> #[trigger] domain_files(snake)[i] == (DOMAINS_DIR@ + "/"@ + snake + "/"@
                + submodule_names()[i] + "/mod.rs"@, "//! TODO: "@ + submodule_names()[i] + " du domaine `"@
                + snake + "`\n"@),
        domain_files(snake)[7] == (DOMAINS_DIR@ + "/"@ + snake + "/mod.rs"@, "pub mod dtos;\npub mod entities;\npub mod errors;\npub mod events;\npub mod listeners;\npub mod repositories;\npub mod services;\n"@),
        submodule_names() == seq!["dtos"@, "entities"@, "errors"@, "events"@, "listeners"@, "repositories"@, "services"@],
{
    reveal_strlit("dtos");
    reveal_strlit("entities");
    reveal_strlit("errors");
    reveal_strlit("events");
    reveal_strlit("listeners");
    reveal_strlit("repositories");
    reveal_strlit("services");
    reveal_strlit("pub mod ");
    reveal_strlit(";\n");
    reveal_strlit("pub mod dtos;\npub mod entities;\npub mod errors;\npub mod events;\npub mod listeners;\npub mod repositories;\npub mod services;\n");
    reveal_with_fuel(mod_decls, 8);
    let subs = submodule_names();
    assert(mod_decls(subs) =~= "pub mod dtos;\npub mod entities;\npub mod errors;\npub mod events;\npub mod listeners;\npub mod repositories;\npub mod services;\n"@);
}

} // verus!
