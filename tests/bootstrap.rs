use quick_init::command::{
    dev_server_command, framework_init_command, generate_init_command, install_command,
};
use quick_init::config::{default_config, resolve_config, ConfigError, Dependencies, StoredConfig};
use quick_init::patch_text::replace_all;
use quick_init::patcher::{
    content_config, patch_config_text, patch_start, patch_step, stylesheet, PatchAction,
    PatchEvent, PatchState,
};
use quick_init::pipeline::{
    install_finished, install_started, is_affirmative, trim, plan_steps, uses_framework, wants_server,
    Step,
};
use quick_init::runner::{platform_invocation, Platform};
use quick_init::template::{parse_template, TemplateKind};

fn strings(v: &[&str]) -> Vec<String> {
    v.iter().map(|s| s.to_string()).collect()
}

const VITE_CONTENT: &str =
    "content: [\n            \"./src/**/*.{js,jsx,ts,tsx}\",\n            ]";

#[test]
fn every_kind_starts_with_its_launcher() {
    let vite = generate_init_command(TemplateKind::Vite, "app", false);
    assert!(!vite.is_empty());
    assert_eq!(vite[0], "npm");
    let next = generate_init_command(TemplateKind::Next, "app", false);
    assert!(!next.is_empty());
    assert_eq!(next[0], "npx");
}

#[test]
fn vite_variant_follows_language_choice() {
    let js = generate_init_command(TemplateKind::Vite, "foo", true);
    let ts = generate_init_command(TemplateKind::Vite, "foo", false);
    assert!(js.contains(&"react".to_string()));
    assert!(!js.contains(&"react-ts".to_string()));
    assert!(ts.contains(&"react-ts".to_string()));
    assert!(!ts.contains(&"react".to_string()));
    assert_eq!(js.iter().filter(|t| t.as_str() == "foo").count(), 1);
    assert_eq!(ts.iter().filter(|t| t.as_str() == "foo").count(), 1);
}

#[test]
fn vite_command_names_template_variant() {
    assert_eq!(
        generate_init_command(TemplateKind::Vite, "demo", false),
        strings(&["npm", "create", "vite@latest", "demo", "--", "--template", "react-ts"])
    );
    assert_eq!(
        generate_init_command(TemplateKind::Vite, "demo", true),
        strings(&["npm", "create", "vite@latest", "demo", "--", "--template", "react"])
    );
}

#[test]
fn next_command_adds_typescript_flag_only_without_javascript() {
    assert_eq!(
        generate_init_command(TemplateKind::Next, "web", false),
        strings(&["npx", "create-next-app@latest", "web", "--typescript", "--use-npm"])
    );
    assert_eq!(
        generate_init_command(TemplateKind::Next, "web", true),
        strings(&["npx", "create-next-app@latest", "web", "--use-npm"])
    );
}

#[test]
fn fixed_commands() {
    assert_eq!(install_command("jest"), strings(&["npm", "install", "jest"]));
    assert_eq!(framework_init_command(), strings(&["npx", "tailwindcss", "init", "-p"]));
    assert_eq!(dev_server_command(), strings(&["npm", "run", "dev"]));
}

#[test]
fn template_names_are_exact() {
    assert_eq!(parse_template("vite"), Some(TemplateKind::Vite));
    assert_eq!(parse_template("next"), Some(TemplateKind::Next));
    assert_eq!(parse_template("Vite"), None);
    assert_eq!(parse_template("nuxt"), None);
    assert_eq!(parse_template(""), None);
    assert_eq!(TemplateKind::Next.name(), "next");
}

#[test]
fn marker_is_replaced_once_and_then_left_alone() {
    let original = "module.exports = {\n  content: [],\n  theme: {},\n}";
    let once = patch_config_text(TemplateKind::Vite, original);
    assert_eq!(
        once,
        format!("module.exports = {{\n  {},\n  theme: {{}},\n}}", VITE_CONTENT)
    );
    let twice = patch_config_text(TemplateKind::Vite, &once);
    assert_eq!(twice, once);
}

#[test]
fn text_without_marker_is_unchanged() {
    let text = "module.exports = { content: ['./x'] }";
    assert_eq!(patch_config_text(TemplateKind::Next, text), text);
    assert_eq!(patch_config_text(TemplateKind::Next, ""), "");
}

#[test]
fn replace_all_scans_left_to_right() {
    assert_eq!(replace_all("aaa", "aa", "b"), "ba");
    assert_eq!(replace_all("xaxa", "a", "yy"), "xyyxyy");
    assert_eq!(replace_all("héllo", "é", "e"), "hello");
}

#[test]
fn next_content_lists_pages_and_components() {
    assert_eq!(
        content_config(TemplateKind::Next),
        "content: [\n            \"./pages/**/*.{js,ts,jsx,tsx}\",\n            \"./components/**/*.{js,ts,jsx,tsx}\",\n            ]"
    );
    assert_eq!(content_config(TemplateKind::Vite), VITE_CONTENT);
}

#[test]
fn patch_runs_through_second_candidates() {
    let (s, a) = patch_start();
    assert!(matches!(a, PatchAction::Run(ref c) if *c == framework_init_command()));
    let (s, a) = patch_step(TemplateKind::Vite, s, PatchEvent::Ran);
    assert!(matches!(a, PatchAction::Probe(ref p) if p == "tailwind.config.js"));
    let (s, a) = patch_step(TemplateKind::Vite, s, PatchEvent::Exists(false));
    assert!(matches!(a, PatchAction::Probe(ref p) if p == "tailwind.config.cjs"));
    let (s, a) = patch_step(TemplateKind::Vite, s, PatchEvent::Exists(true));
    assert!(matches!(a, PatchAction::Read(ref p) if p == "tailwind.config.cjs"));
    let (s, a) = patch_step(
        TemplateKind::Vite,
        s,
        PatchEvent::Content("{ content: [] }".to_string()),
    );
    match a {
        PatchAction::Write(p, c) => {
            assert_eq!(p, "tailwind.config.cjs");
            assert_eq!(c, format!("{{ {} }}", VITE_CONTENT));
        }
        _ => panic!("expected a write"),
    }
    let (s, a) = patch_step(TemplateKind::Vite, s, PatchEvent::Written);
    assert!(matches!(a, PatchAction::Probe(ref p) if p == "src/index.css"));
    let (s, a) = patch_step(TemplateKind::Vite, s, PatchEvent::Exists(false));
    assert!(matches!(a, PatchAction::Probe(ref p) if p == "styles/globals.css"));
    let (s, a) = patch_step(TemplateKind::Vite, s, PatchEvent::Exists(true));
    match a {
        PatchAction::Write(p, c) => {
            assert_eq!(p, "styles/globals.css");
            assert_eq!(c, "@tailwind base;\n@tailwind components;\n@tailwind utilities;");
            assert_eq!(c, stylesheet());
        }
        _ => panic!("expected a write"),
    }
    let (s, a) = patch_step(TemplateKind::Vite, s, PatchEvent::Written);
    assert_eq!(s, PatchState::Done);
    assert!(matches!(a, PatchAction::Finish));
}

#[test]
fn patch_stops_without_config_file() {
    let (s, _) = patch_start();
    let (s, _) = patch_step(TemplateKind::Next, s, PatchEvent::Ran);
    let (s, _) = patch_step(TemplateKind::Next, s, PatchEvent::Exists(false));
    let (s, a) = patch_step(TemplateKind::Next, s, PatchEvent::Exists(false));
    assert_eq!(s, PatchState::Done);
    assert!(matches!(a, PatchAction::Finish));
}

#[test]
fn patch_stops_without_stylesheet() {
    let (s, a) = patch_step(TemplateKind::Next, PatchState::AwaitConfigWrite, PatchEvent::Written);
    assert!(matches!(a, PatchAction::Probe(ref p) if p == "src/index.css"));
    let (s, _) = patch_step(TemplateKind::Next, s, PatchEvent::Exists(false));
    let (s, a) = patch_step(TemplateKind::Next, s, PatchEvent::Exists(false));
    assert_eq!(s, PatchState::Done);
    assert!(matches!(a, PatchAction::Finish));
}

#[test]
fn unexpected_event_ends_patch() {
    let (s, a) = patch_step(TemplateKind::Vite, PatchState::AwaitInit, PatchEvent::Written);
    assert_eq!(s, PatchState::Done);
    assert!(matches!(a, PatchAction::Finish));
}

#[test]
fn windows_wraps_through_interpreter() {
    let inv = platform_invocation(&strings(&["npm", "run", "dev"]), Platform::Windows).unwrap();
    assert_eq!(inv.program, "cmd");
    assert_eq!(inv.args, strings(&["/C", "npm", "run", "dev"]));
}

#[test]
fn other_platforms_run_first_token() {
    let inv = platform_invocation(&strings(&["npm", "run", "dev"]), Platform::Other).unwrap();
    assert_eq!(inv.program, "npm");
    assert_eq!(inv.args, strings(&["run", "dev"]));
    assert!(platform_invocation(&Vec::new(), Platform::Other).is_none());
}

#[test]
fn default_configuration() {
    let c = default_config();
    let dev = strings(&["tailwindcss", "postcss", "autoprefixer", "jest"]);
    assert_eq!(c.vite.dev, dev);
    assert_eq!(c.vite.proj, strings(&["react-router-dom"]));
    assert_eq!(c.next.dev, dev);
    assert_eq!(c.next.proj, strings(&[""]));
    assert_eq!(c.dependencies(TemplateKind::Vite).proj, strings(&["react-router-dom"]));
}

#[test]
fn missing_configuration_falls_back_to_default_and_persists() {
    let loaded = resolve_config(StoredConfig::Missing).unwrap();
    assert!(loaded.persist);
    assert_eq!(loaded.config.vite.dev, default_config().vite.dev);
    assert_eq!(loaded.config.next.proj, default_config().next.proj);
}

#[test]
fn parsed_configuration_is_used_as_is() {
    let mut c = default_config();
    c.vite.proj = strings(&["zod"]);
    let loaded = resolve_config(StoredConfig::Parsed(c)).unwrap();
    assert!(!loaded.persist);
    assert_eq!(loaded.config.vite.proj, strings(&["zod"]));
}

#[test]
fn malformed_configuration_is_an_error() {
    assert!(matches!(resolve_config(StoredConfig::Malformed), Err(ConfigError::Malformed)));
}

fn count_patches(steps: &[Step]) -> usize {
    steps.iter().filter(|s| matches!(s, Step::Patch)).count()
}

#[test]
fn patch_only_with_framework() {
    let with = Dependencies { dev: strings(&["jest", "tailwindcss"]), proj: strings(&[]) };
    let without = Dependencies { dev: strings(&["jest"]), proj: strings(&["zod"]) };
    assert!(uses_framework(&with.dev));
    assert!(!uses_framework(&without.dev));
    assert_eq!(count_patches(&plan_steps(TemplateKind::Vite, "a", false, &with)), 1);
    assert_eq!(count_patches(&plan_steps(TemplateKind::Vite, "a", false, &without)), 0);
    assert!(!uses_framework(&Vec::new()));
}

#[test]
fn end_to_end_plan() {
    let deps = Dependencies { dev: strings(&["tailwindcss"]), proj: strings(&[]) };
    let steps = plan_steps(TemplateKind::Vite, "demo", false, &deps);
    assert_eq!(steps.len(), 4);
    match &steps[0] {
        Step::Scaffold(c) => assert_eq!(*c, generate_init_command(TemplateKind::Vite, "demo", false)),
        _ => panic!("expected the scaffold first"),
    }
    match &steps[1] {
        Step::Install { dev, package } => {
            assert!(*dev);
            assert_eq!(package, "tailwindcss");
        }
        _ => panic!("expected one install"),
    }
    assert!(matches!(steps[2], Step::Patch));
    assert!(matches!(steps[3], Step::OfferServer));
    let runtime = steps
        .iter()
        .filter(|s| matches!(s, Step::Install { dev: false, .. }))
        .count();
    assert_eq!(runtime, 0);
}

#[test]
fn installs_keep_declared_order() {
    let deps = Dependencies { dev: strings(&["b", "a"]), proj: strings(&["d", "c"]) };
    let steps = plan_steps(TemplateKind::Next, "x", true, &deps);
    let order: Vec<(bool, String)> = steps
        .iter()
        .filter_map(|s| match s {
            Step::Install { dev, package } => Some((*dev, package.clone())),
            _ => None,
        })
        .collect();
    assert_eq!(
        order,
        vec![
            (true, "b".to_string()),
            (true, "a".to_string()),
            (false, "d".to_string()),
            (false, "c".to_string()),
        ]
    );
    assert_eq!(steps.len(), 6);
}

#[test]
fn answers_to_server_offer() {
    assert!(wants_server("y\n"));
    assert!(wants_server("  Y  "));
    assert!(!wants_server("yes\n"));
    assert!(!wants_server("n"));
    assert!(!wants_server(""));
    assert!(is_affirmative("y"));
    assert!(!is_affirmative(" y"));
}

#[test]
fn status_lines() {
    assert_eq!(install_started(true, "jest"), "Installing dev dependency jest");
    assert_eq!(install_started(false, "zod"), "Installing dependency zod");
    assert_eq!(install_finished("zod"), "zod installed");
}

#[test]
fn trim_drops_surrounding_white_space() {
    assert_eq!(trim("  y \n"), "y");
    assert_eq!(trim("\u{3000}a b\u{a0}"), "a b");
    assert_eq!(trim(" \t\r\n"), "");
    assert_eq!(trim(""), "");
    assert_eq!(trim("x"), "x");
    for s in ["  y \n", "\u{2028}n\u{85}", "a\u{200b}", " \u{1680}z "] {
        assert_eq!(trim(s), s.trim());
    }
}
