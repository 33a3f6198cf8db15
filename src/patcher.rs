use vstd::prelude::*;
use crate::command::{framework_init_command, framework_init_command_spec, tokens_view};
use crate::patch_text::{
    lemma_replace_absent, lemma_replace_single, occurs_at, occurs_in, replace_all, replace_spec,
};
use crate::template::TemplateKind;

verus! {

/// The empty content list that a freshly generated framework config holds.
pub open spec fn marker() -> Seq<char> {
    "content: []"@
}

/// The source globs that the framework should scan, per template kind.
pub open spec fn content_fragment_spec(kind: TemplateKind) -> Seq<char> {
    match kind {
        TemplateKind::Vite => "\n            \"./src/**/*.{js,jsx,ts,tsx}\",\n            "@,
        TemplateKind::Next =>
            "\n            \"./pages/**/*.{js,ts,jsx,tsx}\",\n            \"./components/**/*.{js,ts,jsx,tsx}\",\n            "@,
    }
}

/// The content list that takes the marker's place.
pub open spec fn content_config_spec(kind: TemplateKind) -> Seq<char> {
    "content: ["@ + content_fragment_spec(kind) + "]"@
}

/// The framework config text after the marker has been filled in.
pub open spec fn patched_config_spec(kind: TemplateKind, text: Seq<char>) -> Seq<char> {
    replace_spec(text, marker(), content_config_spec(kind))
}

/// The three directives that replace the global stylesheet.
pub open spec fn stylesheet_spec() -> Seq<char> {
    "@tailwind base;\n@tailwind components;\n@tailwind utilities;"@
}

/// The package whose presence among the development dependencies asks for
/// the config patch.
pub open spec fn framework_package() -> Seq<char> {
    "tailwindcss"@
}

/// Where the framework's generated config may lie, in order of preference.
pub open spec fn config_candidates_spec() -> Seq<Seq<char>> {
    seq!["tailwind.config.js"@, "tailwind.config.cjs"@]
}

/// Where the global stylesheet may lie, in order of preference.
pub open spec fn stylesheet_candidates_spec() -> Seq<Seq<char>> {
    seq!["src/index.css"@, "styles/globals.css"@]
}

/// Builds the content list for `kind`.
pub fn content_config(kind: TemplateKind) -> (r: String)
    ensures
        r@ == content_config_spec(kind),
{
    let mut r = String::from_str("content: [");
    match kind {
        TemplateKind::Vite => r.append("\n            \"./src/**/*.{js,jsx,ts,tsx}\",\n            "),
        TemplateKind::Next => r.append(
            "\n            \"./pages/**/*.{js,ts,jsx,tsx}\",\n            \"./components/**/*.{js,ts,jsx,tsx}\",\n            ",
        ),
    }
    r.append("]");
    r
}

/// Fills the marker in a framework config text with the content list of
/// `kind`; text without the marker comes back unchanged.
pub fn patch_config_text(kind: TemplateKind, text: &str) -> (r: String)
    ensures
        r@ == patched_config_spec(kind, text@),
{
    let content = content_config(kind);
    proof {
        reveal_strlit("content: []");
    }
    replace_all(text, "content: []", content.as_str())
}

/// The characters of the content list that the proofs below rely on: it
/// starts with `c`, ends with `]`, holds no other `]`, and no `[` stands
/// right before its end.
proof fn lemma_content_config_chars(kind: TemplateKind)
    ensures
        content_config_spec(kind).len() >= 11,
        content_config_spec(kind)[0] == 'c',
        content_config_spec(kind)[content_config_spec(kind).len() - 1] == ']',
        content_config_spec(kind)[content_config_spec(kind).len() - 2] != '[',
        forall|j: int|
            0 <= j < content_config_spec(kind).len() - 1 ==> #[trigger] content_config_spec(
                kind,
            )[j] != ']',
{
    reveal_strlit("content: [");
    reveal_strlit("]");
    reveal_strlit("\n            \"./src/**/*.{js,jsx,ts,tsx}\",\n            ");
    reveal_strlit(
        "\n            \"./pages/**/*.{js,ts,jsx,tsx}\",\n            \"./components/**/*.{js,ts,jsx,tsx}\",\n            ",
    );
}

/// An occurrence fixes every character that it covers.
proof fn lemma_occurrence_chars(s: Seq<char>, p: Seq<char>, i: int)
    requires
        occurs_at(s, p, i),
    ensures
        forall|k: int| 0 <= k < p.len() ==> #[trigger] s[i + k] == p[k],
{
    assert forall|k: int| 0 <= k < p.len() implies #[trigger] s[i + k] == p[k] by {
        assert(s.subrange(i, i + p.len())[k] == s[i + k]);
    }
}

/// An occurrence that lies wholly inside a part of `a + m + b` is an
/// occurrence in that part.
proof fn lemma_occurrence_in_part(a: Seq<char>, m: Seq<char>, b: Seq<char>, p: Seq<char>, i: int)
    requires
        occurs_at(a + m + b, p, i),
    ensures
        i + p.len() <= a.len() ==> occurs_at(a, p, i),
        i >= a.len() + m.len() ==> occurs_at(b, p, i - a.len() - m.len()),
{
    let s = a + m + b;
    if i + p.len() <= a.len() {
        assert(s.subrange(i, i + p.len()) =~= a.subrange(i, i + p.len()));
    }
    if i >= a.len() + m.len() {
        let o = a.len() + m.len();
        assert(s.subrange(i, i + p.len()) =~= b.subrange(i - o, i - o + p.len()));
    }
}

/// Marker substitution is idempotent.  A config text `before + marker +
/// after`, where neither `before` nor `after` holds the marker, has exactly
/// that occurrence replaced by the content list, and the result no longer
/// holds the marker, so that patching it again leaves it unchanged.
pub proof fn lemma_patch_idempotent(kind: TemplateKind, before: Seq<char>, after: Seq<char>)
    requires
        !occurs_in(before, marker()),
        !occurs_in(after, marker()),
    ensures
        patched_config_spec(kind, before + marker() + after) == before + content_config_spec(kind)
            + after,
        !occurs_in(patched_config_spec(kind, before + marker() + after), marker()),
        patched_config_spec(kind, patched_config_spec(kind, before + marker() + after))
            == patched_config_spec(kind, before + marker() + after),
{
    reveal_strlit("content: []");
    let m = marker();
    let c = content_config_spec(kind);
    let n = before.len();
    let s = before + m + after;
    assert forall|i: int| occurs_at(s, m, i) implies i == n by {
        lemma_occurrence_in_part(before, m, after, m, i);
        lemma_occurrence_chars(s, m, i);
        if i < n && n < i + 11 {
            assert(s[i + (n - i)] == m[n - i]);
        } else if n < i && i < n + 11 {
            assert(s[i + 0] == m[0]);
        }
    }
    lemma_replace_single(before, m, after, c);
    let once = before + c + after;
    lemma_content_config_chars(kind);
    let l = c.len();
    assert forall|i: int| !occurs_at(once, m, i) by {
        if occurs_at(once, m, i) {
            lemma_occurrence_in_part(before, c, after, m, i);
            lemma_occurrence_chars(once, m, i);
            if i < n && n < i + 11 {
                assert(once[i + (n - i)] == m[n - i]);
            } else if n <= i && i < n + l {
                if i + 10 < n + l {
                    assert(once[i + 10] == m[10]);
                    assert(once[i + 10] == c[i + 10 - n]);
                    assert(once[i + 9] == m[9]);
                    assert(once[i + 9] == c[i + 9 - n]);
                } else {
                    let q = n + l - 1;
                    assert(once[i + (q - i)] == m[q - i]);
                    assert(once[q] == c[l - 1]);
                }
            }
        }
    }
    lemma_replace_absent(once, m, c);
}

/// Where the config patch stands between two outside steps.
#[derive(Clone, Copy, Debug, PartialEq, Eq, Structural)]
pub enum PatchState {
    /// The framework's init command is running.
    AwaitInit,
    /// Asking whether the config candidate of this index exists.
    ProbeConfig(usize),
    /// Reading the config candidate of this index.
    ReadConfig(usize),
    /// The patched config is being written.
    AwaitConfigWrite,
    /// Asking whether the stylesheet candidate of this index exists.
    ProbeStylesheet(usize),
    /// The stylesheet is being overwritten.
    AwaitStylesheetWrite,
    /// Nothing is left to do.
    Done,
}

/// What the caller is asked to do next; paths are relative to the project
/// directory.
pub enum PatchAction {
    Run(Vec<String>),
    Probe(String),
    Read(String),
    Write(String, String),
    Finish,
}

/// What came of the action asked for last.
pub enum PatchEvent {
    Ran,
    Exists(bool),
    Content(String),
    Written,
}

/// The mathematical value of a `PatchAction`.
pub enum PatchActionView {
    Run(Seq<Seq<char>>),
    Probe(Seq<char>),
    Read(Seq<char>),
    Write(Seq<char>, Seq<char>),
    Finish,
}

/// The mathematical value of a `PatchEvent`.
pub enum PatchEventView {
    Ran,
    Exists(bool),
    Content(Seq<char>),
    Written,
}

impl View for PatchAction {
    type V = PatchActionView;

    open spec fn view(&self) -> PatchActionView {
        match self {
            PatchAction::Run(c) => PatchActionView::Run(tokens_view(c@)),
            PatchAction::Probe(p) => PatchActionView::Probe(p@),
            PatchAction::Read(p) => PatchActionView::Read(p@),
            PatchAction::Write(p, c) => PatchActionView::Write(p@, c@),
            PatchAction::Finish => PatchActionView::Finish,
        }
    }
}

impl View for PatchEvent {
    type V = PatchEventView;

    open spec fn view(&self) -> PatchEventView {
        match self {
            PatchEvent::Ran => PatchEventView::Ran,
            PatchEvent::Exists(b) => PatchEventView::Exists(*b),
            PatchEvent::Content(t) => PatchEventView::Content(t@),
            PatchEvent::Written => PatchEventView::Written,
        }
    }
}

/// Probes the config candidate `i`, or stops when none is left.
pub open spec fn probe_config_spec(i: int) -> (PatchState, PatchActionView) {
    if 0 <= i < 2 {
        (PatchState::ProbeConfig(i as usize), PatchActionView::Probe(config_candidates_spec()[i]))
    } else {
        (PatchState::Done, PatchActionView::Finish)
    }
}

/// Probes the stylesheet candidate `i`, or stops when none is left.
pub open spec fn probe_stylesheet_spec(i: int) -> (PatchState, PatchActionView) {
    if 0 <= i < 2 {
        (
            PatchState::ProbeStylesheet(i as usize),
            PatchActionView::Probe(stylesheet_candidates_spec()[i]),
        )
    } else {
        (PatchState::Done, PatchActionView::Finish)
    }
}

/// The config patch as a state machine: run the framework's init command,
/// take the first config candidate that exists (none: stop), fill its marker,
/// then overwrite the first stylesheet candidate that exists (none: stop).
/// An event that does not answer the last action ends the patch.
pub open spec fn patch_step_spec(kind: TemplateKind, s: PatchState, e: PatchEventView) -> (
    PatchState,
    PatchActionView,
) {
    match s {
        PatchState::AwaitInit => if e is Ran {
            probe_config_spec(0)
        } else {
            (PatchState::Done, PatchActionView::Finish)
        },
        PatchState::ProbeConfig(i) => match e {
            PatchEventView::Exists(true) => if i < 2 {
                (PatchState::ReadConfig(i), PatchActionView::Read(config_candidates_spec()[i as int]))
            } else {
                (PatchState::Done, PatchActionView::Finish)
            },
            PatchEventView::Exists(false) => probe_config_spec(i + 1),
            _ => (PatchState::Done, PatchActionView::Finish),
        },
        PatchState::ReadConfig(i) => match e {
            PatchEventView::Content(t) => if i < 2 {
                (
                    PatchState::AwaitConfigWrite,
                    PatchActionView::Write(
                        config_candidates_spec()[i as int],
                        patched_config_spec(kind, t),
                    ),
                )
            } else {
                (PatchState::Done, PatchActionView::Finish)
            },
            _ => (PatchState::Done, PatchActionView::Finish),
        },
        PatchState::AwaitConfigWrite => if e is Written {
            probe_stylesheet_spec(0)
        } else {
            (PatchState::Done, PatchActionView::Finish)
        },
        PatchState::ProbeStylesheet(i) => match e {
            PatchEventView::Exists(true) => if i < 2 {
                (
                    PatchState::AwaitStylesheetWrite,
                    PatchActionView::Write(stylesheet_candidates_spec()[i as int], stylesheet_spec()),
                )
            } else {
                (PatchState::Done, PatchActionView::Finish)
            },
            PatchEventView::Exists(false) => probe_stylesheet_spec(i + 1),
            _ => (PatchState::Done, PatchActionView::Finish),
        },
        PatchState::AwaitStylesheetWrite => (PatchState::Done, PatchActionView::Finish),
        PatchState::Done => (PatchState::Done, PatchActionView::Finish),
    }
}

/// What the project directory answers to an action: whether a path exists,
/// what a file holds; runs and writes simply complete.
pub open spec fn respond(files: Map<Seq<char>, Seq<char>>, a: PatchActionView) -> PatchEventView {
    match a {
        PatchActionView::Run(_) => PatchEventView::Ran,
        PatchActionView::Probe(p) => PatchEventView::Exists(files.contains_key(p)),
        PatchActionView::Read(p) => PatchEventView::Content(files[p]),
        _ => PatchEventView::Written,
    }
}

/// The actions that the config patch asks for, from state `s` and action
/// `a` on, when each is answered by a project directory holding `files`;
/// at most `fuel` steps are taken.
pub open spec fn patch_run(
    kind: TemplateKind,
    s: PatchState,
    a: PatchActionView,
    files: Map<Seq<char>, Seq<char>>,
    fuel: nat,
) -> Seq<PatchActionView>
    decreases fuel,
{
    if fuel == 0 || a is Finish {
        seq![a]
    } else {
        let (s2, a2) = patch_step_spec(kind, s, respond(files, a));
        seq![a] + patch_run(kind, s2, a2, files, (fuel - 1) as nat)
    }
}

/// The actions of a whole config patch over a project directory holding
/// `files`.
pub open spec fn full_patch_run(kind: TemplateKind, files: Map<Seq<char>, Seq<char>>) -> Seq<
    PatchActionView,
> {
    patch_run(
        kind,
        PatchState::AwaitInit,
        PatchActionView::Run(framework_init_command_spec()),
        files,
        10,
    )
}

/// The first of `candidates` that exists among `files`.
pub open spec fn first_existing(candidates: Seq<Seq<char>>, files: Map<Seq<char>, Seq<char>>) -> Option<
    Seq<char>,
>
    decreases candidates.len(),
{
    if candidates.len() == 0 {
        None
    } else if files.contains_key(candidates[0]) {
        Some(candidates[0])
    } else {
        first_existing(candidates.skip(1), files)
    }
}

/// Over a whole run, the config patch finishes; it writes nothing when no
/// config candidate exists; otherwise it fills the marker of the first config
/// candidate that exists and overwrites the first stylesheet candidate that
/// exists, if any; and it writes no other file and no other content.
pub proof fn lemma_patch_run(kind: TemplateKind, files: Map<Seq<char>, Seq<char>>)
    ensures
        full_patch_run(kind, files).len() > 0,
        full_patch_run(kind, files).last() is Finish,
        first_existing(config_candidates_spec(), files) is None ==> forall|i: int|
            0 <= i < full_patch_run(kind, files).len() ==> !(#[trigger] full_patch_run(
                kind,
                files,
            )[i] is Write),
        forall|i: int|
            0 <= i < full_patch_run(kind, files).len() && #[trigger] full_patch_run(
                kind,
                files,
            )[i] is Write ==> (first_existing(config_candidates_spec(), files) matches Some(cfg)
                && (full_patch_run(kind, files)[i] == PatchActionView::Write(
                cfg,
                patched_config_spec(kind, files[cfg]),
            ) || (first_existing(stylesheet_candidates_spec(), files) matches Some(st)
                && full_patch_run(kind, files)[i] == PatchActionView::Write(
                st,
                stylesheet_spec(),
            )))),
        first_existing(config_candidates_spec(), files) matches Some(cfg) ==> exists|i: int|
            0 <= i < full_patch_run(kind, files).len() && #[trigger] full_patch_run(
                kind,
                files,
            )[i] == PatchActionView::Write(cfg, patched_config_spec(kind, files[cfg])),
        first_existing(config_candidates_spec(), files) is Some ==> (first_existing(
            stylesheet_candidates_spec(),
            files,
        ) matches Some(st) ==> exists|i: int|
            0 <= i < full_patch_run(kind, files).len() && #[trigger] full_patch_run(
                kind,
                files,
            )[i] == PatchActionView::Write(st, stylesheet_spec())),
{
    reveal_with_fuel(patch_run, 11);
    reveal_with_fuel(first_existing, 3);
    let cc = config_candidates_spec();
    let sc = stylesheet_candidates_spec();
    assert(cc.skip(1) =~= seq![cc[1]]);
    assert(cc.skip(1).skip(1) =~= Seq::<Seq<char>>::empty());
    assert(sc.skip(1) =~= seq![sc[1]]);
    assert(sc.skip(1).skip(1) =~= Seq::<Seq<char>>::empty());
    let t = full_patch_run(kind, files);
    let run = PatchActionView::Run(framework_init_command_spec());
    let fin = PatchActionView::Finish;
    let style_part = if files.contains_key(sc[0]) {
        seq![PatchActionView::Probe(sc[0]), PatchActionView::Write(sc[0], stylesheet_spec()), fin]
    } else if files.contains_key(sc[1]) {
        seq![
            PatchActionView::Probe(sc[0]),
            PatchActionView::Probe(sc[1]),
            PatchActionView::Write(sc[1], stylesheet_spec()),
            fin,
        ]
    } else {
        seq![PatchActionView::Probe(sc[0]), PatchActionView::Probe(sc[1]), fin]
    };
    if files.contains_key(cc[0]) {
        let w = PatchActionView::Write(cc[0], patched_config_spec(kind, files[cc[0]]));
        assert(t =~= seq![run, PatchActionView::Probe(cc[0]), PatchActionView::Read(cc[0]), w]
            + style_part);
        assert(t[3] == w);
        if files.contains_key(sc[0]) {
            assert(t[5] == style_part[1]);
        } else if files.contains_key(sc[1]) {
            assert(t[6] == style_part[2]);
        }
    } else if files.contains_key(cc[1]) {
        let w = PatchActionView::Write(cc[1], patched_config_spec(kind, files[cc[1]]));
        assert(t =~= seq![
            run,
            PatchActionView::Probe(cc[0]),
            PatchActionView::Probe(cc[1]),
            PatchActionView::Read(cc[1]),
            w,
        ] + style_part);
        assert(t[4] == w);
        if files.contains_key(sc[0]) {
            assert(t[6] == style_part[1]);
        } else if files.contains_key(sc[1]) {
            assert(t[7] == style_part[2]);
        }
    } else {
        assert(t =~= seq![run, PatchActionView::Probe(cc[0]), PatchActionView::Probe(cc[1]), fin]);
    }
}

/// The config candidate of index `i`.
pub fn config_candidate(i: usize) -> (r: String)
    requires
        i < 2,
    ensures
        r@ == config_candidates_spec()[i as int],
{
    if i == 0 {
        String::from_str("tailwind.config.js")
    } else {
        String::from_str("tailwind.config.cjs")
    }
}

/// The stylesheet candidate of index `i`.
pub fn stylesheet_candidate(i: usize) -> (r: String)
    requires
        i < 2,
    ensures
        r@ == stylesheet_candidates_spec()[i as int],
{
    if i == 0 {
        String::from_str("src/index.css")
    } else {
        String::from_str("styles/globals.css")
    }
}

/// The directives that the global stylesheet is overwritten with.
pub fn stylesheet() -> (r: String)
    ensures
        r@ == stylesheet_spec(),
{
    String::from_str("@tailwind base;\n@tailwind components;\n@tailwind utilities;")
}

fn probe_config(i: usize) -> (r: (PatchState, PatchAction))
    ensures
        (r.0, r.1@) == probe_config_spec(i as int),
{
    if i < 2 {
        (PatchState::ProbeConfig(i), PatchAction::Probe(config_candidate(i)))
    } else {
        (PatchState::Done, PatchAction::Finish)
    }
}

fn probe_stylesheet(i: usize) -> (r: (PatchState, PatchAction))
    ensures
        (r.0, r.1@) == probe_stylesheet_spec(i as int),
{
    if i < 2 {
        (PatchState::ProbeStylesheet(i), PatchAction::Probe(stylesheet_candidate(i)))
    } else {
        (PatchState::Done, PatchAction::Finish)
    }
}

/// The first state of the config patch, and its first action: running the
/// framework's init command.
pub fn patch_start() -> (r: (PatchState, PatchAction))
    ensures
        r.0 == PatchState::AwaitInit,
        r.1@ == PatchActionView::Run(framework_init_command_spec()),
{
    (PatchState::AwaitInit, PatchAction::Run(framework_init_command()))
}

/// Advances the config patch by one event.
pub fn patch_step(kind: TemplateKind, s: PatchState, e: PatchEvent) -> (r: (
    PatchState,
    PatchAction,
))
    ensures
        (r.0, r.1@) == patch_step_spec(kind, s, e@),
{
    match s {
        PatchState::AwaitInit => match e {
            PatchEvent::Ran => probe_config(0),
            _ => (PatchState::Done, PatchAction::Finish),
        },
        PatchState::ProbeConfig(i) => match e {
            PatchEvent::Exists(true) => if i < 2 {
                (PatchState::ReadConfig(i), PatchAction::Read(config_candidate(i)))
            } else {
                (PatchState::Done, PatchAction::Finish)
            },
            PatchEvent::Exists(false) => if i < 1 {
                probe_config(i + 1)
            } else {
                (PatchState::Done, PatchAction::Finish)
            },
            _ => (PatchState::Done, PatchAction::Finish),
        },
        PatchState::ReadConfig(i) => match e {
            PatchEvent::Content(t) => if i < 2 {
                let patched = patch_config_text(kind, t.as_str());
                (PatchState::AwaitConfigWrite, PatchAction::Write(config_candidate(i), patched))
            } else {
                (PatchState::Done, PatchAction::Finish)
            },
            _ => (PatchState::Done, PatchAction::Finish),
        },
        PatchState::AwaitConfigWrite => match e {
            PatchEvent::Written => probe_stylesheet(0),
            _ => (PatchState::Done, PatchAction::Finish),
        },
        PatchState::ProbeStylesheet(i) => match e {
            PatchEvent::Exists(true) => if i < 2 {
                (
                    PatchState::AwaitStylesheetWrite,
                    PatchAction::Write(stylesheet_candidate(i), stylesheet()),
                )
            } else {
                (PatchState::Done, PatchAction::Finish)
            },
            PatchEvent::Exists(false) => if i < 1 {
                probe_stylesheet(i + 1)
            } else {
                (PatchState::Done, PatchAction::Finish)
            },
            _ => (PatchState::Done, PatchAction::Finish),
        },
        PatchState::AwaitStylesheetWrite => (PatchState::Done, PatchAction::Finish),
        PatchState::Done => (PatchState::Done, PatchAction::Finish),
    }
}

} // verus!
