use pm::cli::{Cli, Command, ProjectType};
use pm::context::{config_home_of, prefix_of, scan_levels, Listing, ResolveError, WorkingContext};
use pm::manager::{path_prefix, ProjectManager};
use pm::manifest::{dependency_verdict, manifest_lists_dependency};
use pm::resolve::{all_types, infer, resolve, validate, Validation};

fn comps(p: &str) -> Vec<String> {
    p.split('/').filter(|c| !c.is_empty()).map(String::from).collect()
}

struct Tree<'a> {
    dirs: Vec<(&'a str, Vec<&'a str>)>,
    unreadable: Vec<&'a str>,
    manifests: Vec<(&'a str, &'a str)>,
}

fn tree<'a>(dirs: Vec<(&'a str, Vec<&'a str>)>) -> Tree<'a> {
    Tree { dirs, unreadable: vec![], manifests: vec![] }
}

fn context(work: &str, home: &str, config: &str, t: &Tree, zenn: bool) -> WorkingContext {
    let work_dir = comps(work);
    let home = comps(home);
    let n = scan_levels(&work_dir, &home);
    let mut listings = Vec::new();
    for i in 0..n {
        let dir = path_prefix(&work_dir, work_dir.len() - i);
        let same = |p: &str| comps(p) == dir;
        let entries = if t.unreadable.iter().any(|p| same(p)) {
            None
        } else {
            let names = t
                .dirs
                .iter()
                .filter(|(p, _)| same(p))
                .flat_map(|(_, e)| e.iter().map(|s| s.to_string()))
                .collect::<Vec<String>>();
            Some(names)
        };
        let package_json = t
            .manifests
            .iter()
            .find(|(p, _)| same(p))
            .map(|(_, text)| text.as_bytes().to_vec());
        listings.push(Listing { entries, package_json });
    }
    WorkingContext {
        work_dir,
        home,
        config_home: comps(config),
        listings,
        zenn_installed: zenn,
    }
}

fn simple(work: &str, dirs: Vec<(&str, Vec<&str>)>) -> WorkingContext {
    context(work, "/home/u", "/home/u/.config", &tree(dirs), false)
}

fn cli(pt: Option<ProjectType>) -> Cli {
    Cli { command: None, args_passed_to_original: vec![], project_type: pt, tarrget_file: None }
}

#[test]
fn cargo_manifest_in_working_directory() {
    let ctx = simple("/home/u/proj", vec![("/home/u/proj", vec!["Cargo.toml", "src"])]);
    assert_eq!(resolve(&ctx, Some(ProjectType::Cargo)), Ok((ProjectType::Cargo, 0)));
    let pm = ProjectManager::init(cli(Some(ProjectType::Cargo)), ctx).ok().unwrap();
    assert_eq!(pm.project_root, comps("/home/u/proj"));
    assert_eq!(pm.cli.project_type, Some(ProjectType::Cargo));
    assert_eq!(pm.cli.command, Some(Command::Run));
}

#[test]
fn cargo_manifest_three_levels_up_is_inferred() {
    let ctx = simple("/home/u/proj/a/b/c", vec![("/home/u/proj", vec!["Cargo.toml"])]);
    assert_eq!(resolve(&ctx, None), Ok((ProjectType::Cargo, 3)));
    let pm = ProjectManager::init(cli(None), ctx).ok().unwrap();
    assert_eq!(pm.project_root, comps("/home/u/proj"));
    assert_eq!(pm.cli.project_type, Some(ProjectType::Cargo));
}

#[test]
fn no_marker_anywhere_is_indeterminate() {
    let ctx = simple("/home/u/notes/x", vec![("/home/u/notes", vec!["todo.txt"])]);
    assert_eq!(resolve(&ctx, None), Err(ResolveError::Indeterminate));
    assert_eq!(infer(&ctx), Err(ResolveError::Indeterminate));
    assert!(ProjectManager::init(cli(None), ctx).is_err());
}

#[test]
fn editor_config_outside_config_home() {
    let ctx = simple("/home/u/proj", vec![("/home/u/proj", vec!["Cargo.toml"])]);
    assert_eq!(
        resolve(&ctx, Some(ProjectType::RustNvimConfig)),
        Err(ResolveError::OutsideConfigHome(ProjectType::RustNvimConfig))
    );
    assert_eq!(
        resolve(&ctx, Some(ProjectType::LuaNvimConfig)),
        Err(ResolveError::OutsideConfigHome(ProjectType::LuaNvimConfig))
    );
    // Inference passes over the editor-config type and finds Cargo.
    assert_eq!(resolve(&ctx, None), Ok((ProjectType::Cargo, 0)));
}

#[test]
fn editor_config_inside_config_home() {
    let ctx = simple("/home/u/.config/nvim/src", vec![("/home/u/.config/nvim", vec!["Cargo.toml"])]);
    assert_eq!(resolve(&ctx, None), Ok((ProjectType::RustNvimConfig, 1)));
    assert_eq!(
        resolve(&ctx, Some(ProjectType::LuaNvimConfig)),
        Err(ResolveError::AssertedTypeIncorrect(ProjectType::LuaNvimConfig))
    );
}

#[test]
fn zenn_manifest_with_dependency() {
    let mut t = tree(vec![("/home/u/blog", vec!["package.json", "articles"])]);
    t.manifests.push(("/home/u/blog", r#"{"name":"blog","dependencies":{"zenn-cli":"^0.1.150"}}"#));
    let ctx = context("/home/u/blog/articles", "/home/u", "/home/u/.config", &t, false);
    assert_eq!(resolve(&ctx, Some(ProjectType::Zenn)), Ok((ProjectType::Zenn, 1)));
    assert_eq!(resolve(&ctx, None), Ok((ProjectType::Zenn, 1)));
}

#[test]
fn zenn_manifest_without_dependency() {
    let mut t = tree(vec![("/home/u/site", vec!["package.json"])]);
    t.manifests.push(("/home/u/site", r#"{"dependencies":{"vite":"5"}}"#));
    let ctx = context("/home/u/site", "/home/u", "/home/u/.config", &t, true);
    assert_eq!(
        resolve(&ctx, Some(ProjectType::Zenn)),
        Err(ResolveError::AssertedTypeIncorrect(ProjectType::Zenn))
    );
    assert_eq!(resolve(&ctx, None), Ok((ProjectType::TypeScript, 0)));
}

#[test]
fn zenn_manifest_unreadable() {
    let t = tree(vec![("/home/u/site", vec!["package.json"])]);
    let ctx = context("/home/u/site", "/home/u", "/home/u/.config", &t, false);
    assert_eq!(resolve(&ctx, Some(ProjectType::Zenn)), Err(ResolveError::IoFailure(0)));
}

#[test]
fn zenn_tool_picks_deeper_content_directory() {
    let t = tree(vec![("/home/u/blog", vec!["articles"]), ("/home/u/blog/sub", vec!["books"])]);
    let ctx = context("/home/u/blog/sub/x", "/home/u", "/home/u/.config", &t, true);
    assert_eq!(resolve(&ctx, Some(ProjectType::Zenn)), Ok((ProjectType::Zenn, 1)));
    let off = context("/home/u/blog/sub/x", "/home/u", "/home/u/.config", &t, false);
    assert_eq!(
        resolve(&off, Some(ProjectType::Zenn)),
        Err(ResolveError::AssertedTypeIncorrect(ProjectType::Zenn))
    );
    let one = tree(vec![("/home/u/blog", vec!["articles"])]);
    let ctx = context("/home/u/blog/x", "/home/u", "/home/u/.config", &one, true);
    assert_eq!(validate(&ctx, ProjectType::Zenn), Validation::Found(1));
}

#[test]
fn nearest_marker_wins() {
    let ctx = simple(
        "/home/u/ws/member/src",
        vec![("/home/u/ws", vec!["Cargo.toml"]), ("/home/u/ws/member", vec!["Cargo.toml"])],
    );
    assert_eq!(ctx.lookup("Cargo.toml"), Ok(Some(1)));
    assert_eq!(ctx.lookup("Cargo.toml"), ctx.lookup("Cargo.toml"));
    assert_eq!(ctx.lookup("go.mod"), Ok(None));
}

#[test]
fn scan_includes_home_and_stops_there() {
    let at_home = simple("/home/u/a", vec![("/home/u", vec!["Cargo.toml"])]);
    assert_eq!(at_home.lookup("Cargo.toml"), Ok(Some(1)));
    let above = simple("/home/u/a", vec![("/home", vec!["Cargo.toml"])]);
    assert_eq!(above.lookup("Cargo.toml"), Ok(None));
    assert_eq!(resolve(&above, Some(ProjectType::Cargo)), Err(ResolveError::AssertedTypeIncorrect(ProjectType::Cargo)));
}

#[test]
fn scan_outside_home_reaches_filesystem_root() {
    let ctx = simple("/srv/app", vec![("/", vec!["index.html"])]);
    assert_eq!(ctx.listings.len(), 3);
    assert_eq!(ctx.lookup("index.html"), Ok(Some(2)));
    let pm = ProjectManager::init(cli(None), ctx).ok().unwrap();
    assert_eq!(pm.cli.project_type, Some(ProjectType::WebSite));
    assert!(pm.project_root.is_empty());
}

#[test]
fn unreadable_directory_fails_the_scan() {
    let mut t = tree(vec![("/home/u/p", vec!["Cargo.toml"])]);
    t.unreadable.push("/home/u/p/a");
    let ctx = context("/home/u/p/a/b", "/home/u", "/home/u/.config", &t, false);
    assert_eq!(ctx.lookup("Cargo.toml"), Err(ResolveError::IoFailure(1)));
    assert_eq!(resolve(&ctx, Some(ProjectType::Cargo)), Err(ResolveError::IoFailure(1)));
    assert_eq!(resolve(&ctx, None), Err(ResolveError::Indeterminate));
    let mut u = tree(vec![("/home/u/p/a/b", vec!["main.rs"])]);
    u.unreadable.push("/home/u/p/a");
    let ctx = context("/home/u/p/a/b", "/home/u", "/home/u/.config", &u, false);
    assert_eq!(resolve(&ctx, None), Ok((ProjectType::Rust, 0)));
}

#[test]
fn earlier_type_wins_when_two_markers_match() {
    let ctx = simple("/home/u/p", vec![("/home/u/p", vec!["package.json", "Cargo.toml"])]);
    assert_eq!(resolve(&ctx, None), Ok((ProjectType::Cargo, 0)));
    let ctx = simple("/home/u/p", vec![("/home/u/p", vec!["index.html", "appscript.json"])]);
    assert_eq!(resolve(&ctx, None), Ok((ProjectType::GAS, 0)));
    assert_eq!(resolve(&ctx, Some(ProjectType::WebSite)), Ok((ProjectType::WebSite, 0)));
}

#[test]
fn asserted_type_is_kept() {
    let ctx = simple("/home/u/p/q", vec![("/home/u/p", vec!["main.rs"])]);
    assert_eq!(resolve(&ctx, Some(ProjectType::Rust)), Ok((ProjectType::Rust, 1)));
    assert_eq!(resolve(&ctx, Some(ProjectType::Markdown)), Ok((ProjectType::Markdown, 0)));
    assert_eq!(resolve(&ctx, Some(ProjectType::Python)), Ok((ProjectType::Python, 0)));
    assert_eq!(resolve(&ctx, Some(ProjectType::C)), Err(ResolveError::AssertedTypeIncorrect(ProjectType::C)));
    assert_eq!(
        resolve(&ctx, Some(ProjectType::TypeScript)),
        Err(ResolveError::AssertedTypeIncorrect(ProjectType::TypeScript))
    );
}

#[test]
fn root_stays_on_the_path_to_home() {
    let ctx = simple("/home/u/p/q/r", vec![("/home/u/p", vec!["Cargo.toml"])]);
    let pm = ProjectManager::init(cli(None), ctx).ok().unwrap();
    assert!(prefix_of(&pm.project_root, &pm.context.work_dir));
    assert!(prefix_of(&pm.context.home, &pm.project_root));
}

#[test]
fn manager_methods() {
    let ctx = simple("/home/u/p", vec![("/home/u/p", vec!["Cargo.toml"])]);
    let mut pm = ProjectManager::init(cli(Some(ProjectType::Cargo)), ctx).ok().unwrap();
    assert_eq!(pm.lookup("Cargo.toml"), Ok(Some(0)));
    assert_eq!(pm.missed_project(), ResolveError::AssertedTypeIncorrect(ProjectType::Cargo));
    assert_eq!(pm.target_file(), Ok(()));
    pm.cli.project_type = Some(ProjectType::GAS);
    assert_eq!(pm.detect_project(), Err(ResolveError::AssertedTypeIncorrect(ProjectType::GAS)));
    pm.cli.project_type = None;
    assert_eq!(pm.root_and_type(), Ok(()));
    assert_eq!(pm.cli.project_type, Some(ProjectType::Cargo));
}

#[test]
fn init_keeps_an_explicit_command() {
    let mut c = cli(None);
    c.command = Some(Command::Build);
    c.args_passed_to_original = vec!["--release".to_string()];
    let c = Cli::init(c);
    assert_eq!(c.command, Some(Command::Build));
    assert_eq!(c.args_passed_to_original, vec!["--release".to_string()]);
    assert_eq!(Cli::init(cli(None)).command, Some(Command::Run));
}

#[test]
fn manifest_dependency_lookup() {
    let yes = br#"{"dependencies":{"zenn-cli":"latest"}}"#.to_vec();
    let dev = br#"{"devDependencies":{"zenn-cli":"latest"}}"#.to_vec();
    let bad = b"{ not json".to_vec();
    assert!(manifest_lists_dependency(&yes, "zenn-cli"));
    assert!(!manifest_lists_dependency(&yes, "vite"));
    assert!(!manifest_lists_dependency(&dev, "zenn-cli"));
    assert!(!manifest_lists_dependency(&bad, "zenn-cli"));
    assert!(dependency_verdict(Some(true)));
    assert!(!dependency_verdict(Some(false)));
    assert!(!dependency_verdict(None));
}

#[test]
fn config_home_default_and_named() {
    let home = comps("/home/u");
    assert_eq!(config_home_of(None, &home), comps("/home/u/.config"));
    assert_eq!(config_home_of(Some(comps("/etc/xdg")), &home), comps("/etc/xdg"));
}

#[test]
fn scan_level_counts() {
    assert_eq!(scan_levels(&comps("/home/u/a/b"), &comps("/home/u")), 3);
    assert_eq!(scan_levels(&comps("/home/u"), &comps("/home/u")), 1);
    assert_eq!(scan_levels(&comps("/srv/x"), &comps("/home/u")), 3);
    assert_eq!(path_prefix(&comps("/a/b/c"), 2), comps("/a/b"));
}

#[test]
fn inference_order() {
    let order = all_types();
    assert_eq!(order.len(), 14);
    assert_eq!(order[0], ProjectType::RustNvimConfig);
    assert_eq!(order[1], ProjectType::Cargo);
    assert_eq!(order[13], ProjectType::Python);
}
