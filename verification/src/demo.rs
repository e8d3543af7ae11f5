//! Demo mode: `frename --demo <scenario.toml> --out <png>` opens a staged folder in a known
//! state, saves a screenshot of the main window and exits. This module reads the command line,
//! says what to do once the video is ready, and checks the screenshot's size; the app stages the
//! folder, drives the window and writes the PNG.

use vstd::prelude::*;
use vstd::string::*;

use crate::text::{decimal, decimal_string, str_eq};

verus! {

/// Whether `s` starts with two dashes, like a flag.
pub open spec fn is_flag(s: Seq<char>) -> bool {
    s.len() >= 2 && s[0] == '-' && s[1] == '-'
}

/// The first position of `flag` in `args`.
pub open spec fn first_position(args: Seq<Seq<char>>, flag: Seq<char>) -> Option<int> {
    if exists|i: int| 0 <= i < args.len() && args[i] == flag {
        Some(choose|i: int| 0 <= i < args.len() && args[i] == flag
            && forall|j: int| 0 <= j < i ==> args[j] != flag)
    } else {
        None
    }
}

/// The argument after position `at`, when there is one and it is not a flag itself.
pub open spec fn value_after(args: Seq<Seq<char>>, at: Option<int>) -> Option<Seq<char>> {
    match at {
        Some(i) => if i + 1 < args.len() && !is_flag(args[i + 1]) {
            Some(args[i + 1])
        } else {
            None
        },
        None => None,
    }
}

/// What the command line `args` asks of demo mode: `None` without `--demo`; otherwise the
/// scenario and the output file, or why they cannot be had.
pub open spec fn demo_request(args: Seq<Seq<char>>) -> Option<Result<(Seq<char>, Seq<char>), Seq<char>>> {
    match first_position(args, "--demo"@) {
        None => None,
        Some(at) => Some(
            match value_after(args, Some(at)) {
                None => Err("--demo needs a value"@),
                Some(scenario) => match value_after(args, first_position(args, "--out"@)) {
                    None => Err("--demo needs --out <file.png>"@),
                    Some(out) => Ok((scenario, out)),
                },
            },
        ),
    }
}

/// The arguments as character sequences.
pub open spec fn arg_views(args: Seq<String>) -> Seq<Seq<char>> {
    args.map_values(|a: String| a@)
}

/// The first position of `flag` in `args`, computed.
fn position_of(args: &[String], flag: &str) -> (at: Option<usize>)
    ensures
        at is Some <==> first_position(arg_views(args@), flag@) is Some,
        at matches Some(i) ==> first_position(arg_views(args@), flag@) == Some(i as int)
            && i < args@.len(),
{
    let ghost views = arg_views(args@);
    let mut i: usize = 0;
    while i < args.len()
        invariant
            i <= args@.len(),
            views == arg_views(args@),
            views.len() == args@.len(),
            forall|j: int| 0 <= j < i ==> views[j] != flag@,
        decreases args@.len() - i,
    {
        if str_eq(args[i].as_str(), flag) {
            proof {
                let w = choose|k: int| 0 <= k < views.len() && views[k] == flag@
                    && forall|j: int| 0 <= j < k ==> views[j] != flag@;
                assert(0 <= i < views.len() && views[i as int] == flag@
                    && forall|j: int| 0 <= j < i ==> views[j] != flag@);
                if w < i {
                    assert(views[w] != flag@);
                } else if w > i {
                    assert(views[i as int] != flag@);
                }
            }
            return Some(i);
        }
        i = i + 1;
    }
    None
}

/// Whether `s` starts with two dashes.
fn starts_with_dashes(s: &str) -> (flag: bool)
    ensures
        flag == is_flag(s@),
{
    s.unicode_len() >= 2 && s.get_char(0) == '-' && s.get_char(1) == '-'
}

/// The argument after position `at`, when it is there and is not a flag.
fn value_at(args: &[String], at: Option<usize>) -> (value: Option<String>)
    requires
        at matches Some(i) ==> i < args@.len(),
    ensures
        value matches Some(v) ==> value_after(arg_views(args@), match at { Some(i) => Some(i as int), None => None }) == Some(v@),
        value is None ==> value_after(arg_views(args@), match at { Some(i) => Some(i as int), None => None }) is None,
{
    match at {
        Some(i) => {
            if args.len() - i > 1 && !starts_with_dashes(args[i + 1].as_str()) {
                Some(args[i + 1].clone())
            } else {
                None
            }
        },
        None => None,
    }
}

/// The scenario and output file given with `--demo <scenario> --out <png>`, in either order;
/// `None` for a normal start (no `--demo`), an error when a value is missing.
pub fn demo_args(args: &[String]) -> (request: Option<Result<(String, String), String>>)
    ensures
        match request {
            None => demo_request(arg_views(args@)) is None,
            Some(Ok((scenario, out))) => demo_request(arg_views(args@)) == Some(
                Ok::<(Seq<char>, Seq<char>), Seq<char>>((scenario@, out@)),
            ),
            Some(Err(e)) => demo_request(arg_views(args@)) == Some(
                Err::<(Seq<char>, Seq<char>), Seq<char>>(e@),
            ),
        },
{
    let at = match position_of(args, "--demo") {
        Some(at) => at,
        None => return None,
    };
    let scenario = match value_at(args, Some(at)) {
        Some(scenario) => scenario,
        None => return Some(Err(String::from_str("--demo needs a value"))),
    };
    let out_at = position_of(args, "--out");
    match value_at(args, out_at) {
        Some(out) => Some(Ok((scenario, out))),
        None => Some(Err(String::from_str("--demo needs --out <file.png>"))),
    }
}

/// A step the scenario takes once the video is ready.
#[derive(Debug, Clone, Copy, PartialEq, Eq, Structural)]
pub enum DemoStep {
    /// Pause the video at the scenario's time.
    SeekToScenarioTime,
    /// Turn batch mode on.
    SetBatchMode,
    /// Check every listed file.
    CheckAll,
}

/// The steps once the video is ready: pause at the scenario's time, and turn on batch mode
/// with every file checked when the scenario asks for it.
pub open spec fn demo_steps(batch: bool) -> Seq<DemoStep> {
    if batch {
        seq![DemoStep::SeekToScenarioTime, DemoStep::SetBatchMode, DemoStep::CheckAll]
    } else {
        seq![DemoStep::SeekToScenarioTime]
    }
}

/// The steps to take once the video is ready, for a scenario with or without `batch` mode.
pub fn steps(batch: bool) -> (steps: Vec<DemoStep>)
    ensures
        steps@ == demo_steps(batch),
{
    let mut steps = vec![DemoStep::SeekToScenarioTime];
    if batch {
        steps.push(DemoStep::SetBatchMode);
        steps.push(DemoStep::CheckAll);
    }
    proof {
        assert(steps@ =~= demo_steps(batch));
    }
    steps
}

/// A demo in progress: whether the video got ready already.
#[derive(Debug, Clone, Copy, Default)]
pub struct DemoRun {
    video_ready: bool,
}

impl View for DemoRun {
    type V = bool;

    closed spec fn view(&self) -> bool {
        self.video_ready
    }
}

impl DemoRun {
    /// A demo whose video is not ready yet.
    pub fn new() -> (run: Self)
        ensures
            !run@,
    {
        DemoRun { video_ready: false }
    }

    /// The video is ready: true the first time, when the scenario's steps are to be taken and
    /// the screenshot scheduled; false afterwards.
    pub fn video_ready(&mut self) -> (first: bool)
        ensures
            first == !old(self)@,
            final(self)@,
    {
        let first = !self.video_ready;
        self.video_ready = true;
        first
    }
}

/// Why a screenshot of `size` is refused when the README templates expect `expected`: they
/// place their labels for exactly that size.
pub open spec fn size_refusal(size: (u32, u32), expected: (u32, u32)) -> Option<Seq<char>> {
    if size == expected {
        None
    } else {
        Some("the window is "@ + decimal(size.0 as nat) + "x"@ + decimal(size.1 as nat) + " pixels, not "@
            + decimal(expected.0 as nat) + "x"@ + decimal(expected.1 as nat)
            + " (the display must fit it, at scale 1)"@)
    }
}

/// Checks the screenshot's size before it is saved.
pub fn check_screenshot_size(size: (u32, u32), expected: (u32, u32)) -> (checked: Result<(), String>)
    ensures
        match checked {
            Ok(()) => size_refusal(size, expected) is None,
            Err(e) => size_refusal(size, expected) == Some(e@),
        },
{
    if size.0 == expected.0 && size.1 == expected.1 {
        return Ok(());
    }
    proof {
        reveal_strlit("the window is ");
        reveal_strlit("x");
        reveal_strlit(" pixels, not ");
        reveal_strlit(" (the display must fit it, at scale 1)");
    }
    let mut e = String::from_str("the window is ");
    let n = decimal_string(size.0 as usize);
    e.append(n.as_str());
    e.append("x");
    let n = decimal_string(size.1 as usize);
    e.append(n.as_str());
    e.append(" pixels, not ");
    let n = decimal_string(expected.0 as usize);
    e.append(n.as_str());
    e.append("x");
    let n = decimal_string(expected.1 as usize);
    e.append(n.as_str());
    e.append(" (the display must fit it, at scale 1)");
    Err(e)
}

} // verus!
