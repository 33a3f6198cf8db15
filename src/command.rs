use vstd::prelude::*;
use crate::template::TemplateKind;

verus! {

/// The view of a list of command tokens.
pub open spec fn tokens_view(v: Seq<String>) -> Seq<Seq<char>> {
    v.map_values(|t: String| t@)
}

/// The token that selects the front-end flavour of a vite-like project.
pub open spec fn vite_variant(use_javascript: bool) -> Seq<char> {
    if use_javascript { "react"@ } else { "react-ts"@ }
}

/// The scaffolding command for each template kind.
///
/// The vite-like tool gets the `react` template when JavaScript was asked for
/// and `react-ts` otherwise; the next-like tool gets a typed-language flag
/// only when JavaScript was not asked for.  Either command names the project
/// once; packages are installed afterwards inside the project directory.
pub open spec fn init_command_spec(
    kind: TemplateKind,
    name: Seq<char>,
    use_javascript: bool,
) -> Seq<Seq<char>> {
    match kind {
        TemplateKind::Vite => seq![
            "npm"@, "create"@, "vite@latest"@, name, "--"@, "--template"@,
            vite_variant(use_javascript),
        ],
        TemplateKind::Next => if use_javascript {
            seq!["npx"@, "create-next-app@latest"@, name, "--use-npm"@]
        } else {
            seq!["npx"@, "create-next-app@latest"@, name, "--typescript"@, "--use-npm"@]
        },
    }
}

/// The package-manager token that starts the scaffolding command of a kind.
pub open spec fn launcher(kind: TemplateKind) -> Seq<char> {
    match kind {
        TemplateKind::Vite => "npm"@,
        TemplateKind::Next => "npx"@,
    }
}

/// Where the project name stands in the scaffolding command of a kind.
pub open spec fn name_index(kind: TemplateKind) -> int {
    match kind {
        TemplateKind::Vite => 3,
        TemplateKind::Next => 2,
    }
}

/// The tokens that a scaffolding command holds besides the project name.
pub open spec fn fixed_tokens() -> Set<Seq<char>> {
    set![
        "npm"@, "create"@, "vite@latest"@, "--"@, "--template"@, "react"@, "react-ts"@, "npx"@,
        "create-next-app@latest"@, "--typescript"@, "--use-npm"@,
    ]
}

/// Every scaffolding command is non-empty and starts with its launcher; a
/// project name that is not one of the fixed tokens stands in it as exactly
/// one standalone token.  For a vite-like project, JavaScript selects the
/// untyped `react` variant and TypeScript the typed `react-ts` one, and the
/// two differ.
pub proof fn lemma_command_shape(kind: TemplateKind, name: Seq<char>, use_javascript: bool)
    ensures
        init_command_spec(kind, name, use_javascript).len() > 0,
        init_command_spec(kind, name, use_javascript)[0] == launcher(kind),
        !fixed_tokens().contains(name) ==> forall|j: int|
            0 <= j < init_command_spec(kind, name, use_javascript).len() ==> (
            #[trigger] init_command_spec(kind, name, use_javascript)[j] == name <==> j
                == name_index(kind)),
        init_command_spec(TemplateKind::Vite, name, true)[6] == "react"@,
        init_command_spec(TemplateKind::Vite, name, false)[6] == "react-ts"@,
        "react"@ != "react-ts"@,
{
    reveal_strlit("react");
    reveal_strlit("react-ts");
    assert("react"@.len() != "react-ts"@.len());
    let c = init_command_spec(kind, name, use_javascript);
    if !fixed_tokens().contains(name) {
        assert forall|j: int| 0 <= j < c.len() implies (#[trigger] c[j] == name <==> j
            == name_index(kind)) by {
            if j != name_index(kind) {
                assert(fixed_tokens().contains(c[j]));
            }
        }
    }
}

/// Builds the argument list that scaffolds a new project named `name`.
pub fn generate_init_command(kind: TemplateKind, name: &str, use_javascript: bool) -> (r: Vec<
    String,
>)
    ensures
        tokens_view(r@) == init_command_spec(kind, name@, use_javascript),
        r@.len() > 0,
        r@[0]@ == launcher(kind),
        !fixed_tokens().contains(name@) ==> forall|j: int|
            0 <= j < r@.len() ==> (#[trigger] r@[j]@ == name@ <==> j == name_index(kind)),
{
    let r = match kind {
        TemplateKind::Vite => {
            let variant = if use_javascript {
                String::from_str("react")
            } else {
                String::from_str("react-ts")
            };
            vec![
                String::from_str("npm"),
                String::from_str("create"),
                String::from_str("vite@latest"),
                String::from_str(name),
                String::from_str("--"),
                String::from_str("--template"),
                variant,
            ]
        },
        TemplateKind::Next => {
            let mut v = vec![
                String::from_str("npx"),
                String::from_str("create-next-app@latest"),
                String::from_str(name),
            ];
            if !use_javascript {
                v.push(String::from_str("--typescript"));
            }
            v.push(String::from_str("--use-npm"));
            v
        },
    };
    assert(tokens_view(r@) =~= init_command_spec(kind, name@, use_javascript));
    proof {
        lemma_command_shape(kind, name@, use_javascript);
        assert forall|j: int| 0 <= j < r@.len() implies r@[j]@ == tokens_view(r@)[j] by {}
    }
    r
}

/// The command that adds one package to a project.
pub open spec fn install_command_spec(package: Seq<char>) -> Seq<Seq<char>> {
    seq!["npm"@, "install"@, package]
}

/// Builds the argument list that installs `package` into the current project.
pub fn install_command(package: &str) -> (r: Vec<String>)
    ensures
        tokens_view(r@) == install_command_spec(package@),
{
    let r = vec![String::from_str("npm"), String::from_str("install"), String::from_str(package)];
    assert(tokens_view(r@) =~= install_command_spec(package@));
    r
}

/// The utility framework's own initialisation command.
pub open spec fn framework_init_command_spec() -> Seq<Seq<char>> {
    seq!["npx"@, "tailwindcss"@, "init"@, "-p"@]
}

/// Builds the argument list that initialises the utility framework.
pub fn framework_init_command() -> (r: Vec<String>)
    ensures
        tokens_view(r@) == framework_init_command_spec(),
{
    let r = vec![
        String::from_str("npx"),
        String::from_str("tailwindcss"),
        String::from_str("init"),
        String::from_str("-p"),
    ];
    assert(tokens_view(r@) =~= framework_init_command_spec());
    r
}

/// The command that starts the development server.
pub open spec fn dev_server_command_spec() -> Seq<Seq<char>> {
    seq!["npm"@, "run"@, "dev"@]
}

/// Builds the argument list that starts the development server.
pub fn dev_server_command() -> (r: Vec<String>)
    ensures
        tokens_view(r@) == dev_server_command_spec(),
{
    let r = vec![String::from_str("npm"), String::from_str("run"), String::from_str("dev")];
    assert(tokens_view(r@) =~= dev_server_command_spec());
    r
}

} // verus!
