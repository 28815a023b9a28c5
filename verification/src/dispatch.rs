//! Argument handling: the top-level branch between help, flag dispatch and
//! the run of all four metrics, and the flag-by-flag plan of a dispatched
//! invocation.
//!
//! Both functions work on the process arguments with the program name
//! stripped. The caller executes the returned plan: it opens the file for
//! each scan step and prints the diagnostic lines for the others.

use vstd::prelude::*;
use crate::text::{contains_char, contains_pair, has_char, has_pair, starts_with_char, str_eq};

verus! {

/// One of the four metric scanners, in the fixed reporting order.
#[derive(Clone, Copy, PartialEq, Eq, Structural, Debug)]
pub enum ScanKind {
    Bytes,
    Lines,
    Words,
    Chars,
}

/// The three top-level modes of an invocation.
#[derive(Clone, Copy, PartialEq, Eq, Structural, Debug)]
pub enum Branch {
    /// Print the usage text and do nothing else.
    ShowHelp,
    /// Treat the arguments as flags (with an optional trailing path) and
    /// run the selected scanners.
    RunSelectedFlags,
    /// Treat the first argument as a path and run all four scanners on it.
    RunAllMetrics,
}

/// One step of a dispatched invocation, in execution order.
#[derive(PartialEq, Eq, Debug)]
pub enum Step {
    /// Run this scanner against the trailing path argument.
    Scan(ScanKind),
    /// Print `not path provided.`: a scanner flag was given without a path.
    NoPath,
    /// Print `unrecognized argument: <flag>` for this flag.
    Unrecognized(String),
}

/// The mathematical image of a [`Step`]: the same shape, with the flag text
/// as a character sequence.
pub enum PlanStep {
    Scan(ScanKind),
    NoPath,
    Unrecognized(Seq<char>),
}

impl View for Step {
    type V = PlanStep;

    open spec fn view(&self) -> PlanStep {
        match self {
            Step::Scan(k) => PlanStep::Scan(*k),
            Step::NoPath => PlanStep::NoPath,
            Step::Unrecognized(flag) => PlanStep::Unrecognized(flag@),
        }
    }
}

impl DeepView for Step {
    type V = PlanStep;

    open spec fn deep_view(&self) -> PlanStep {
        self.view()
    }
}

/// Which top-level mode the argument list selects: help when there are no
/// arguments or the first contains `-h`, flag dispatch when the first
/// contains a `-`, and the all-metrics run otherwise.
pub open spec fn spec_branch(args: Seq<Seq<char>>) -> Branch {
    if args.len() == 0 || has_pair(args[0], '-', 'h') {
        Branch::ShowHelp
    } else if has_char(args[0], '-') {
        Branch::RunSelectedFlags
    } else {
        Branch::RunAllMetrics
    }
}

/// Whether the argument list ends in a path: a last argument that does not
/// begin with `-`.
pub open spec fn spec_has_path(args: Seq<Seq<char>>) -> bool {
    args.len() > 0 && !(args.last().len() > 0 && args.last()[0] == '-')
}

/// The arguments read as flag tokens: all of them, or all but the trailing
/// path.
pub open spec fn spec_flags(args: Seq<Seq<char>>) -> Seq<Seq<char>> {
    if spec_has_path(args) {
        args.drop_last()
    } else {
        args
    }
}

/// The scanner a flag selects, if any.
pub open spec fn flag_scanner(flag: Seq<char>) -> Option<ScanKind> {
    if flag == "-c"@ {
        Some(ScanKind::Bytes)
    } else if flag == "-l"@ {
        Some(ScanKind::Lines)
    } else if flag == "-w"@ {
        Some(ScanKind::Words)
    } else if flag == "-m"@ {
        Some(ScanKind::Chars)
    } else {
        None
    }
}

/// The steps one flag token contributes. A scanner flag runs its scanner,
/// or reports the missing path; `-h` is recognized but selects no scanner;
/// the program's own name is passed over; anything else is an unrecognized
/// argument.
pub open spec fn step_of(flag: Seq<char>, has_path: bool) -> Seq<PlanStep> {
    if flag == "-h"@ || flag == "lwc"@ {
        Seq::<PlanStep>::empty()
    } else if flag_scanner(flag) is Some {
        if has_path {
            seq![PlanStep::Scan(flag_scanner(flag)->Some_0)]
        } else {
            seq![PlanStep::NoPath]
        }
    } else {
        seq![PlanStep::Unrecognized(flag)]
    }
}

/// The steps contributed by the flags at or after index `i`, in order.
pub open spec fn plan_from(flags: Seq<Seq<char>>, i: int, has_path: bool) -> Seq<PlanStep>
    decreases flags.len() - i,
{
    if i < 0 || i >= flags.len() {
        Seq::<PlanStep>::empty()
    } else {
        step_of(flags[i], has_path) + plan_from(flags, i + 1, has_path)
    }
}

/// The full plan of a dispatched invocation.
pub open spec fn spec_plan(args: Seq<Seq<char>>) -> Seq<PlanStep> {
    plan_from(spec_flags(args), 0, spec_has_path(args))
}

/// Selects the top-level mode for the given arguments (program name
/// excluded).
pub fn select_branch(args: &Vec<String>) -> (r: Branch)
    ensures
        r == spec_branch(args.deep_view()),
{
    if args.len() == 0 {
        return Branch::ShowHelp;
    }
    let first = &args[0];
    proof {
        assert(args.deep_view()[0] == args@[0]@);
    }
    if contains_pair(first.as_str(), '-', 'h') {
        Branch::ShowHelp
    } else if contains_char(first.as_str(), '-') {
        Branch::RunSelectedFlags
    } else {
        Branch::RunAllMetrics
    }
}

/// The trailing path argument, if the last argument does not begin with
/// `-` (program name excluded).
pub fn trailing_path(args: &Vec<String>) -> (r: Option<String>)
    ensures
        r is Some <==> spec_has_path(args.deep_view()),
        r matches Some(p) ==> p@ == args.deep_view().last(),
{
    if args.len() == 0 {
        return None;
    }
    let last = &args[args.len() - 1];
    proof {
        assert(args.deep_view().last() == args@[args@.len() - 1]@);
    }
    if starts_with_char(last.as_str(), '-') {
        None
    } else {
        Some(last.clone())
    }
}

/// Turns one flag token into its steps, matching [`step_of`].
fn push_step(steps: &mut Vec<Step>, flag: &String, has_path: bool)
    ensures
        final(steps).deep_view() == old(steps).deep_view() + step_of(flag@, has_path),
{
    if str_eq(flag.as_str(), "-h") || str_eq(flag.as_str(), "lwc") {
        proof {
            assert(steps.deep_view() =~= old(steps).deep_view() + step_of(flag@, has_path));
        }
        return ;
    }
    let scanner: Option<ScanKind> = if str_eq(flag.as_str(), "-c") {
        Some(ScanKind::Bytes)
    } else if str_eq(flag.as_str(), "-l") {
        Some(ScanKind::Lines)
    } else if str_eq(flag.as_str(), "-w") {
        Some(ScanKind::Words)
    } else if str_eq(flag.as_str(), "-m") {
        Some(ScanKind::Chars)
    } else {
        None
    };
    match scanner {
        Some(kind) => {
            if has_path {
                steps.push(Step::Scan(kind));
            } else {
                steps.push(Step::NoPath);
            }
        },
        None => {
            steps.push(Step::Unrecognized(flag.clone()));
        },
    }
    proof {
        assert(steps.deep_view() =~= old(steps).deep_view() + step_of(flag@, has_path));
    }
}

/// Lays out a dispatched invocation flag by flag (program name excluded):
/// the returned steps, executed in order, are the invocation's behavior.
pub fn plan_invocation(args: &Vec<String>) -> (r: Vec<Step>)
    ensures
        r.deep_view() == spec_plan(args.deep_view()),
{
    let ghost dv = args.deep_view();
    let has_path = match trailing_path(args) {
        Some(_) => true,
        None => false,
    };
    let flag_count = if has_path {
        args.len() - 1
    } else {
        args.len()
    };
    let ghost flags = spec_flags(dv);
    proof {
        assert(flags.len() == flag_count);
        assert(forall|j: int| 0 <= j < flags.len() ==> flags[j] == dv[j]);
    }
    let mut steps: Vec<Step> = Vec::new();
    let mut i: usize = 0;
    while i < flag_count
        invariant
            flag_count <= args@.len(),
            dv == args.deep_view(),
            has_path == spec_has_path(dv),
            flags == spec_flags(dv),
            flags.len() == flag_count,
            forall|j: int| 0 <= j < flags.len() ==> flags[j] == dv[j],
            0 <= i <= flag_count,
            plan_from(flags, 0, has_path) == steps.deep_view() + plan_from(flags, i as int, has_path),
        decreases flag_count - i,
    {
        let flag = &args[i];
        proof {
            assert(dv[i as int] == args@[i as int]@);
        }
        let ghost steps_before = steps.deep_view();
        push_step(&mut steps, flag, has_path);
        proof {
            assert(steps.deep_view() =~= steps_before + step_of(flags[i as int], has_path));
            assert(plan_from(flags, i as int, has_path) == step_of(flags[i as int], has_path)
                + plan_from(flags, i + 1, has_path));
            assert(plan_from(flags, 0, has_path) =~= steps.deep_view() + plan_from(
                flags,
                i + 1,
                has_path,
            ));
        }
        i += 1;
    }
    steps
}

} // verus!
