//! `cargo xtask init <name>`: a new project directory holding the whole
//! `api/` crate skeleton, plus empty directories kept by a `.gitkeep`.

use vstd::prelude::*;
use crate::domain::DOMAINS_DIR;
use crate::extractor::EXTRACTORS_DIR;
use crate::naming::{snake_case, to_snake_case};
use crate::scaffold::{concat2, planned_views, GenerateError, PlannedFile};
use crate::templates::{cargo, file_views, files, lib_rs, main_rs, skeleton};

verus! {

/// The empty directories of the skeleton, relative to `api/`.
pub open spec fn empty_dir_names() -> Seq<Seq<char>> {
    seq![
        "migrations"@,
        "src/infrastructure/services"@,
        "tests/architecture"@,
        "tests/feature"@,
        "tests/unit"@,
    ]
}

/// The empty directories of the skeleton (each gets a `.gitkeep`).
pub fn empty_dirs() -> (r: Vec<&'static str>)
    ensures
        r@.len() == empty_dir_names().len(),
        forall|i: int| 0 <= i < r@.len() ==> #[trigger] r@[i]@ == empty_dir_names()[i],
{
    let r = vec![
        "migrations",
        "src/infrastructure/services",
        "tests/architecture",
        "tests/feature",
        "tests/unit",
    ];
    assert(r@.len() == 5);
    r
}

/// The `api/` directory of project `snake`, relative to where it is created.
pub open spec fn api_dir(snake: Seq<char>) -> Seq<char> {
    snake + "/api/"@
}

/// Every file of project `snake`, relative to the directory it is created in:
/// the skeleton's files, then an empty `.gitkeep` in each empty directory.
pub open spec fn project_files(snake: Seq<char>) -> Seq<(Seq<char>, Seq<char>)> {
    let sk = skeleton();
    let dirs = empty_dir_names();
    Seq::new(sk.len(), |i: int| (api_dir(snake) + sk[i].0, sk[i].1)) + Seq::new(
        dirs.len(),
        |i: int| (api_dir(snake) + dirs[i] + "/.gitkeep"@, Seq::<char>::empty()),
    )
}

/// What `init` creates: the project's directory name (its snake_case name)
/// and its files, relative to the directory it is created in.
pub struct InitPlan {
    pub snake: String,
    pub files: Vec<PlannedFile>,
}

/// Plans the project named `raw_name`; refused when its snake_case form is empty.
pub fn plan_init(raw_name: &str) -> (r: Result<InitPlan, GenerateError>)
    ensures
        r is Err <==> snake_case(raw_name@).len() == 0,
        r matches Err(e) ==> e == GenerateError::EmptyProjectName,
        r matches Ok(p) ==> {
            &&& p.snake@ == snake_case(raw_name@)
            &&& planned_views(p.files@) == project_files(p.snake@)
        },
{
    let snake = to_snake_case(raw_name);
    if snake.unicode_len() == 0 {
        return Err(GenerateError::EmptyProjectName);
    }
    let api = concat2(snake.as_str(), "/api/");
    let skeleton_files = files();
    let dirs = empty_dirs();
    let ghost target = project_files(snake@);
    let ghost sk = skeleton();
    let mut out: Vec<PlannedFile> = Vec::new();
    let mut i: usize = 0;
    while i < skeleton_files.len()
        invariant
            i <= skeleton_files@.len() == sk.len(),
            file_views(skeleton_files@) == sk,
            sk == skeleton(),
            target == project_files(snake@),
            api@ == api_dir(snake@),
            planned_views(out@) == target.take(i as int),
        decreases skeleton_files@.len() - i,
    {
        let path = concat2(api.as_str(), skeleton_files[i].0);
        let content = skeleton_files[i].1.clone();
        assert(file_views(skeleton_files@)[i as int] == (skeleton_files@[i as int].0@, skeleton_files@[i as int].1@));
        let ghost before = planned_views(out@);
        out.push(PlannedFile { path, content });
        assert(planned_views(out@) =~= before.push(target[i as int]));
        assert(target.take(i + 1) =~= target.take(i as int).push(target[i as int]));
        i = i + 1;
    }
    let n = skeleton_files.len();
    let mut j: usize = 0;
    while j < dirs.len()
        invariant
            j <= dirs@.len() == empty_dir_names().len(),
            n == sk.len(),
            sk == skeleton(),
            forall|k: int| 0 <= k < dirs@.len() ==> #[trigger] dirs@[k]@ == empty_dir_names()[k],
            target == project_files(snake@),
            api@ == api_dir(snake@),
            planned_views(out@) == target.take(n + j),
        decreases dirs@.len() - j,
    {
        let mut path = concat2(api.as_str(), dirs[j]);
        path.append("/.gitkeep");
        let content = String::new();
        let ghost before = planned_views(out@);
        out.push(PlannedFile { path, content });
        assert(planned_views(out@) =~= before.push(target[n + j]));
        assert(target.take(n + j + 1) =~= target.take(n + j).push(target[n + j]));
        j = j + 1;
    }
    assert(target.take(n + dirs@.len()) =~= target);
    Ok(InitPlan { snake, files: out })
}

/// A project created by `init` holds the directories where `new domain` and
/// `new extractor` write: `api/src/domains/mod.rs` and
/// `api/src/http/extractors/mod.rs` are among its files.
pub proof fn lemma_init_supports_generators(snake: Seq<char>)
    ensures
        exists|i: int|
            0 <= i < project_files(snake).len() && #[trigger] project_files(snake)[i].0 == snake
                + "/"@ + DOMAINS_DIR@ + "/mod.rs"@,
        exists|i: int|
            0 <= i < project_files(snake).len() && #[trigger] project_files(snake)[i].0 == snake
                + "/"@ + EXTRACTORS_DIR@ + "/mod.rs"@,
{
    reveal_strlit("/api/");
    reveal_strlit("/");
    reveal_strlit("/mod.rs");
    reveal_strlit("api/src/domains");
    reveal_strlit("api/src/http/extractors");
    reveal_strlit("src/domains/mod.rs");
    reveal_strlit("src/http/extractors/mod.rs");
    let pf = project_files(snake);
    assert(pf[12].0 =~= snake + "/"@ + DOMAINS_DIR@ + "/mod.rs"@);
    assert(pf[14].0 =~= snake + "/"@ + EXTRACTORS_DIR@ + "/mod.rs"@);
}

/// A new project writes every skeleton file under `{snake}/api/` with that
/// file's template text, in the skeleton's order, then an empty `.gitkeep` in
/// each empty directory; in particular its `Cargo.toml`, `src/main.rs` and
/// `src/lib.rs` hold their own templates.
pub proof fn lemma_init_writes_skeleton_texts(snake: Seq<char>)
    ensures
        project_files(snake).len() == skeleton().len() + empty_dir_names().len(),
        forall|i: int|
            0 <= i < skeleton().len() ==> #[trigger] project_files(snake)[i] == (snake + "/api/"@
                + skeleton()[i].0, skeleton()[i].1),
        forall|i: int|
            0 <= i < empty_dir_names().len() ==> #[trigger] project_files(snake)[skeleton().len() + i]
                == (snake + "/api/"@ + empty_dir_names()[i] + "/.gitkeep"@, Seq::<char>::empty()),
        project_files(snake)[0] == (snake + "/api/"@ + "Cargo.toml"@, cargo::CARGO_TOML@),
        project_files(snake)[2] == (snake + "/api/"@ + "src/main.rs"@, main_rs::MAIN_RS@),
        project_files(snake)[3] == (snake + "/api/"@ + "src/lib.rs"@, lib_rs::LIB_RS@),
{
    let pf = project_files(snake);
    let sk = skeleton();
    assert forall|i: int| 0 <= i < sk.len() implies #[trigger] pf[i] == (snake + "/api/"@ + sk[i].0, sk[i].1) by {
        assert(api_dir(snake) + sk[i].0 =~= snake + "/api/"@ + sk[i].0);
    }
    assert forall|i: int| 0 <= i < empty_dir_names().len() implies #[trigger] pf[sk.len() + i] == (snake + "/api/"@
        + empty_dir_names()[i] + "/.gitkeep"@, Seq::<char>::empty()) by {
        assert(api_dir(snake) + empty_dir_names()[i] + "/.gitkeep"@ =~= snake + "/api/"@ + empty_dir_names()[i] + "/.gitkeep"@);
    }
    assert(pf[0] == (snake + "/api/"@ + sk[0].0, sk[0].1));
    assert(pf[2] == (snake + "/api/"@ + sk[2].0, sk[2].1));
    assert(pf[3] == (snake + "/api/"@ + sk[3].0, sk[3].1));
}

} // verus!
