use vstd::prelude::*;
use crate::command::{generate_init_command, init_command_spec, tokens_view};
use crate::config::{Dependencies, DependenciesView};
use crate::patcher::framework_package;
use crate::template::TemplateKind;

verus! {

/// One stage of the bootstrap, in the order it runs.
pub enum Step {
    /// Run the scaffolding command in the working directory.
    Scaffold(Vec<String>),
    /// Install one package into the project directory.
    Install { dev: bool, package: String },
    /// Run the config patch in the project directory.
    Patch,
    /// Ask whether to start the development server.
    OfferServer,
}

/// The mathematical value of a `Step`.
pub enum StepView {
    Scaffold(Seq<Seq<char>>),
    Install(bool, Seq<char>),
    Patch,
    OfferServer,
}

impl View for Step {
    type V = StepView;

    open spec fn view(&self) -> StepView {
        match self {
            Step::Scaffold(c) => StepView::Scaffold(tokens_view(c@)),
            Step::Install { dev, package } => StepView::Install(*dev, package@),
            Step::Patch => StepView::Patch,
            Step::OfferServer => StepView::OfferServer,
        }
    }
}

/// The view of a list of steps.
pub open spec fn steps_view(v: Seq<Step>) -> Seq<StepView> {
    v.map_values(|s: Step| s@)
}

/// One install step for each package, all of one group, in declared order.
pub open spec fn install_steps(dev: bool, packages: Seq<Seq<char>>) -> Seq<StepView> {
    packages.map_values(|p: Seq<char>| StepView::Install(dev, p))
}

/// The config patch runs only when the development dependencies hold the
/// utility framework.
pub open spec fn patch_steps(deps: DependenciesView) -> Seq<StepView> {
    if deps.dev.contains(framework_package()) {
        seq![StepView::Patch]
    } else {
        Seq::empty()
    }
}

/// The whole bootstrap: scaffold, install the development dependencies, then
/// the runtime ones, patch the config where the framework is used, and offer
/// to start the development server.
pub open spec fn plan_spec(
    kind: TemplateKind,
    name: Seq<char>,
    use_javascript: bool,
    deps: DependenciesView,
) -> Seq<StepView> {
    seq![StepView::Scaffold(init_command_spec(kind, name, use_javascript))] + install_steps(
        true,
        deps.dev,
    ) + install_steps(false, deps.proj) + patch_steps(deps) + seq![StepView::OfferServer]
}

/// Tells whether the development dependencies hold the utility framework.
pub fn uses_framework(dev: &Vec<String>) -> (r: bool)
    ensures
        r == tokens_view(dev@).contains(framework_package()),
{
    let target = String::from_str("tailwindcss");
    let mut i: usize = 0;
    while i < dev.len()
        invariant
            i <= dev@.len(),
            target@ == framework_package(),
            forall|k: int| 0 <= k < i ==> dev@[k]@ != framework_package(),
        decreases dev@.len() - i,
    {
        if dev[i] == target {
            assert(tokens_view(dev@)[i as int] == framework_package());
            return true;
        }
        i = i + 1;
    }
    assert forall|k: int| 0 <= k < tokens_view(dev@).len() implies tokens_view(dev@)[k]
        != framework_package() by {
        assert(dev@[k]@ != framework_package());
    }
    false
}

/// Appends one install step per package of `packages`.
fn push_installs(packages: &Vec<String>, dev: bool, out: &mut Vec<Step>)
    ensures
        steps_view(final(out)@) == steps_view(old(out)@) + install_steps(dev, tokens_view(packages@)),
{
    let mut i: usize = 0;
    while i < packages.len()
        invariant
            i <= packages@.len(),
            steps_view(out@) == steps_view(old(out)@) + install_steps(
                dev,
                tokens_view(packages@),
            ).take(i as int),
        decreases packages@.len() - i,
    {
        let package = packages[i].clone();
        let ghost prev = out@;
        out.push(Step::Install { dev, package });
        assert(out@ =~= prev.push(Step::Install { dev, package }));
        assert(steps_view(out@) =~= steps_view(prev).push(
            StepView::Install(dev, packages@[i as int]@),
        ));
        assert(install_steps(dev, tokens_view(packages@)).take(i + 1) =~= install_steps(
            dev,
            tokens_view(packages@),
        ).take(i as int).push(StepView::Install(dev, packages@[i as int]@)));
        assert(steps_view(out@) =~= steps_view(old(out)@) + install_steps(
            dev,
            tokens_view(packages@),
        ).take(i + 1));
        i = i + 1;
    }
    assert(install_steps(dev, tokens_view(packages@)).take(i as int) =~= install_steps(
        dev,
        tokens_view(packages@),
    ));
}

/// Lays out the stages that bootstrap a project named `name` of `kind` with
/// the dependency set `deps`.
pub fn plan_steps(kind: TemplateKind, name: &str, use_javascript: bool, deps: &Dependencies) -> (r:
    Vec<Step>)
    ensures
        steps_view(r@) == plan_spec(kind, name@, use_javascript, deps@),
{
    let mut r: Vec<Step> = Vec::new();
    r.push(Step::Scaffold(generate_init_command(kind, name, use_javascript)));
    assert(steps_view(r@) =~= seq![StepView::Scaffold(init_command_spec(kind, name@, use_javascript))]);
    push_installs(&deps.dev, true, &mut r);
    push_installs(&deps.proj, false, &mut r);
    if uses_framework(&deps.dev) {
        let ghost prev = r@;
        r.push(Step::Patch);
        assert(steps_view(r@) =~= steps_view(prev) + patch_steps(deps@));
    } else {
        assert(steps_view(r@) =~= steps_view(r@) + patch_steps(deps@));
    }
    let ghost prev = r@;
    r.push(Step::OfferServer);
    assert(steps_view(r@) =~= steps_view(prev) + seq![StepView::OfferServer]);
    r
}

/// The config patch is part of the bootstrap exactly when the development
/// dependencies hold the utility framework, and then it comes once, after
/// every install step.
pub proof fn lemma_patch_iff_framework(
    kind: TemplateKind,
    name: Seq<char>,
    use_javascript: bool,
    deps: DependenciesView,
)
    ensures
        (exists|i: int|
            0 <= i < plan_spec(kind, name, use_javascript, deps).len() && #[trigger] plan_spec(
                kind,
                name,
                use_javascript,
                deps,
            )[i] is Patch) <==> deps.dev.contains(framework_package()),
        deps.dev.contains(framework_package()) ==> plan_spec(kind, name, use_javascript, deps)[1
            + deps.dev.len() + deps.proj.len() as int] is Patch,
        forall|i: int|
            0 <= i < plan_spec(kind, name, use_javascript, deps).len() && #[trigger] plan_spec(
                kind,
                name,
                use_javascript,
                deps,
            )[i] is Patch ==> i == 1 + deps.dev.len() + deps.proj.len(),
{
    let p = plan_spec(kind, name, use_javascript, deps);
    let n: int = (1 + deps.dev.len() + deps.proj.len()) as int;
    assert forall|i: int| 0 <= i < p.len() && #[trigger] p[i] is Patch implies i == n by {
        if i < 1 + deps.dev.len() {
            if i >= 1 {
                assert(p[i] == install_steps(true, deps.dev)[i - 1]);
            }
        } else if i < n {
            assert(p[i] == install_steps(false, deps.proj)[i - 1 - deps.dev.len()]);
        } else if i > n {
            assert(p[i] == seq![StepView::OfferServer][i - n - patch_steps(deps).len()]);
        }
    }
    if deps.dev.contains(framework_package()) {
        assert(p[n] is Patch);
    } else {
        assert(p.len() == n + 1);
        assert(p[n] is OfferServer);
    }
}

/// Characters of the Unicode `White_Space` property.
pub open spec fn is_white_space(c: char) -> bool {
    let u = c as u32;
    (0x9 <= u <= 0xd) || u == 0x20 || u == 0x85 || u == 0xa0 || u == 0x1680 || (0x2000 <= u
        <= 0x200a) || u == 0x2028 || u == 0x2029 || u == 0x202f || u == 0x205f || u == 0x3000
}

/// `s` without its leading whitespace.
pub open spec fn trim_start_spec(s: Seq<char>) -> Seq<char>
    decreases s.len(),
{
    if s.len() > 0 && is_white_space(s[0]) {
        trim_start_spec(s.skip(1))
    } else {
        s
    }
}

/// `s` without its trailing whitespace.
pub open spec fn trim_end_spec(s: Seq<char>) -> Seq<char>
    decreases s.len(),
{
    if s.len() > 0 && is_white_space(s.last()) {
        trim_end_spec(s.drop_last())
    } else {
        s
    }
}

/// `s` without its leading and trailing whitespace.
pub open spec fn trim_spec(s: Seq<char>) -> Seq<char> {
    trim_end_spec(trim_start_spec(s))
}

fn white_space(c: char) -> (r: bool)
    ensures
        r == is_white_space(c),
{
    let u = c as u32;
    (0x9 <= u && u <= 0xd) || u == 0x20 || u == 0x85 || u == 0xa0 || u == 0x1680 || (0x2000 <= u
        && u <= 0x200a) || u == 0x2028 || u == 0x2029 || u == 0x202f || u == 0x205f || u == 0x3000
}

/// Removes the leading and trailing whitespace of `s`.
pub fn trim(s: &str) -> (r: &str)
    ensures
        r@ == trim_spec(s@),
{
    let n = s.unicode_len();
    let mut i: usize = 0;
    assert(s@.skip(0) =~= s@);
    while i < n && white_space(s.get_char(i))
        invariant
            n == s@.len(),
            i <= n,
            trim_start_spec(s@.skip(i as int)) == trim_start_spec(s@),
        decreases n - i,
    {
        assert(s@.skip(i as int).skip(1) =~= s@.skip(i + 1));
        i = i + 1;
    }
    let ghost start = s@.skip(i as int);
    assert(trim_start_spec(s@) == start) by {
        if i < n {
            assert(start[0] == s@[i as int]);
        }
    }
    let mut j: usize = n;
    assert(start.subrange(0, (n - i) as int) =~= start);
    while j > i && white_space(s.get_char(j - 1))
        invariant
            n == s@.len(),
            i <= j <= n,
            start == s@.skip(i as int),
            trim_end_spec(start.subrange(0, j - i)) == trim_end_spec(start),
        decreases j,
    {
        assert(start.subrange(0, j - i).drop_last() =~= start.subrange(0, j - 1 - i));
        j = j - 1;
    }
    let r = s.substring_char(i, j);
    assert(r@ =~= start.subrange(0, j - i));
    r
}

/// A trimmed answer is affirmative when it is a single `y`, either case.
pub open spec fn affirmative(t: Seq<char>) -> bool {
    t == "y"@ || t == "Y"@
}

/// Tells whether an already trimmed answer accepts the offer.
pub fn is_affirmative(t: &str) -> (r: bool)
    ensures
        r == affirmative(t@),
{
    proof {
        reveal_strlit("y");
        reveal_strlit("Y");
    }
    if t.unicode_len() != 1 {
        return false;
    }
    let c = t.get_char(0);
    if c == 'y' || c == 'Y' {
        assert(t@ =~= "y"@ || t@ =~= "Y"@);
        true
    } else {
        false
    }
}

/// Tells whether a line typed in answer to the dev-server offer accepts it.
pub fn wants_server(answer: &str) -> (r: bool)
    ensures
        r == affirmative(trim_spec(answer@)),
{
    is_affirmative(trim(answer))
}

/// The status line shown while a package installs.
pub open spec fn install_started_spec(dev: bool, package: Seq<char>) -> Seq<char> {
    "Installing "@ + (if dev { "dev "@ } else { ""@ }) + "dependency "@ + package
}

/// The status line shown once a package is installed.
pub open spec fn install_finished_spec(package: Seq<char>) -> Seq<char> {
    package + " installed"@
}

/// Builds the status line shown while a package installs.
pub fn install_started(dev: bool, package: &str) -> (r: String)
    ensures
        r@ == install_started_spec(dev, package@),
{
    let mut r = String::from_str("Installing ");
    if dev {
        r.append("dev ");
    } else {
        proof {
            reveal_strlit("");
        }
        assert(r@ + ""@ =~= r@);
    }
    r.append("dependency ");
    r.append(package);
    r
}

/// Builds the status line shown once a package is installed.
pub fn install_finished(package: &str) -> (r: String)
    ensures
        r@ == install_finished_spec(package@),
{
    let mut r = String::from_str(package);
    r.append(" installed");
    r
}

} // verus!
