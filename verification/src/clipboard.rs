//! The order in which clipboard mechanisms are tried.
//!
//! No single mechanism reaches the clipboard on every desktop, so a delivery
//! walks a chain of strategies: helper programs first, chosen by the display
//! signals of the environment, and the clipboard library last. A strategy that
//! cannot be started, or that does not take the text, is passed over for the
//! next one; the delivery fails only when the whole chain has failed. This
//! module decides; the caller spawns the helpers, calls the library and reports
//! what came of each attempt.

use vstd::prelude::*;

verus! {

/// The variable whose presence in the environment signals a Wayland display.
pub const WAYLAND_VARIABLE: &'static str = "WAYLAND_DISPLAY";

/// The variable whose presence in the environment signals an X11 display.
pub const X11_VARIABLE: &'static str = "DISPLAY";

/// The name of the operating system that has a clipboard command of its own.
pub const MACOS: &'static str = "macos";

/// One way of putting a text on the clipboard.
#[derive(Debug, Clone, Copy, PartialEq, Eq, Structural)]
pub enum Strategy {
    /// The Wayland helper program.
    WlCopy,
    /// The first X11 helper program.
    Xclip,
    /// The second X11 helper program.
    Xsel,
    /// The clipboard command of macOS.
    Pbcopy,
    /// The clipboard library, which needs no helper program.
    Library,
}

/// What came of one attempt. Only `Written` is a success; the other two
/// outcomes say in which way the strategy failed, and both send the delivery
/// on to the next strategy.
#[derive(Debug, Clone, Copy, PartialEq, Eq, Structural)]
pub enum AttemptOutcome {
    /// The mechanism could not be started: the helper is missing or could not
    /// be spawned, or the library found no clipboard.
    Unavailable,
    /// The mechanism was started and took the whole text.
    Written,
    /// The mechanism was started, but writing the text to it failed.
    WriteFailed,
}

/// Why a delivery failed.
#[derive(Debug, Clone, Copy, PartialEq, Eq, Structural)]
pub enum ClipboardError {
    /// Every strategy of the chain has failed.
    Unavailable,
}

impl ClipboardError {
    /// The failure in words.
    pub fn message(&self) -> (text: String)
        ensures
            text@ == "No method available."@,
    {
        "No method available.".to_owned()
    }
}

/// The next move of a delivery.
#[derive(Debug, Clone, Copy, PartialEq, Eq, Structural)]
pub enum DeliveryStep {
    /// Attempt this strategy and report its outcome.
    Attempt(Strategy),
    /// The text is on its way to the clipboard through this strategy.
    Delivered(Strategy),
    /// The delivery is over and the text was not delivered.
    Failed(ClipboardError),
}

/// What the environment says about the desktop.
#[derive(Debug, PartialEq, Eq)]
pub struct Signals {
    /// The Wayland display variable is set.
    pub wayland: bool,
    /// The X11 display variable is set.
    pub x11: bool,
    /// The name of the operating system, as the standard library reports it.
    pub os: String,
}

/// What `Signals` means.
pub struct SignalsView {
    pub wayland: bool,
    pub x11: bool,
    pub os: Seq<char>,
}

impl View for Signals {
    type V = SignalsView;

    open spec fn view(&self) -> SignalsView {
        SignalsView { wayland: self.wayland, x11: self.x11, os: self.os@ }
    }
}

impl Clone for Signals {
    fn clone(&self) -> (copy: Signals)
        ensures
            copy == *self,
    {
        Signals { wayland: self.wayland, x11: self.x11, os: self.os.clone() }
    }
}

/// The strategies to try, in order, under the given signals. Wayland wins over
/// X11, X11 over the operating system; the library always closes the chain.
pub open spec fn chain_for(signals: SignalsView) -> Seq<Strategy> {
    if signals.wayland {
        seq![Strategy::WlCopy, Strategy::Library]
    } else if signals.x11 {
        seq![Strategy::Xclip, Strategy::Xsel, Strategy::Library]
    } else if signals.os == MACOS@ {
        seq![Strategy::Pbcopy, Strategy::Library]
    } else {
        seq![Strategy::Library]
    }
}

/// The move that follows when the first `outcomes.len()` attempts along `chain`
/// ended as `outcomes` says. The first strategy that took the text has
/// delivered it, whatever is reported after it. While every attempt has failed,
/// for want of the mechanism or in writing to it, the next strategy of the
/// chain is due; when the chain is used up, the delivery has failed.
pub open spec fn decide(chain: Seq<Strategy>, outcomes: Seq<AttemptOutcome>) -> DeliveryStep
    decreases chain.len(),
{
    if chain.len() == 0 {
        DeliveryStep::Failed(ClipboardError::Unavailable)
    } else if outcomes.len() == 0 {
        DeliveryStep::Attempt(chain[0])
    } else {
        match outcomes[0] {
            AttemptOutcome::Written => DeliveryStep::Delivered(chain[0]),
            AttemptOutcome::Unavailable => decide(chain.drop_first(), outcomes.drop_first()),
            AttemptOutcome::WriteFailed => decide(chain.drop_first(), outcomes.drop_first()),
        }
    }
}

/// The program that a strategy spawns, if it spawns one.
pub open spec fn helper_program(strategy: Strategy) -> Option<Seq<char>> {
    match strategy {
        Strategy::WlCopy => Some("wl-copy"@),
        Strategy::Xclip => Some("xclip"@),
        Strategy::Xsel => Some("xsel"@),
        Strategy::Pbcopy => Some("pbcopy"@),
        Strategy::Library => None,
    }
}

/// The arguments that the program of a strategy is spawned with.
pub open spec fn helper_arguments(strategy: Strategy) -> Seq<Seq<char>> {
    match strategy {
        Strategy::Xclip => seq!["-selection"@, "clipboard"@],
        Strategy::Xsel => seq!["--clipboard"@, "--input"@],
        _ => Seq::empty(),
    }
}

/// A helper program and its arguments. The text goes to its standard input.
#[derive(Debug, PartialEq, Eq)]
pub struct HelperCommand {
    pub program: String,
    pub arguments: Vec<String>,
}

/// The command line of a strategy; `None` for the library, which spawns nothing.
pub fn helper_command(strategy: Strategy) -> (command: Option<HelperCommand>)
    ensures
        match command {
            Some(c) => helper_program(strategy) == Some(c.program@)
                && c.arguments.deep_view() == helper_arguments(strategy),
            None => helper_program(strategy) is None,
        },
{
    let mut arguments: Vec<String> = Vec::new();
    let program = match strategy {
        Strategy::WlCopy => "wl-copy".to_owned(),
        Strategy::Xclip => {
            arguments.push("-selection".to_owned());
            arguments.push("clipboard".to_owned());
            "xclip".to_owned()
        },
        Strategy::Xsel => {
            arguments.push("--clipboard".to_owned());
            arguments.push("--input".to_owned());
            "xsel".to_owned()
        },
        Strategy::Pbcopy => "pbcopy".to_owned(),
        Strategy::Library => {
            return None;
        },
    };
    assert(arguments.deep_view() =~= helper_arguments(strategy));
    Some(HelperCommand { program, arguments })
}

/// The chain of strategies for the given signals.
pub fn fallback_chain(signals: &Signals) -> (chain: Vec<Strategy>)
    ensures
        chain@ == chain_for(signals@),
{
    let mut chain: Vec<Strategy> = Vec::new();
    if signals.wayland {
        chain.push(Strategy::WlCopy);
    } else if signals.x11 {
        chain.push(Strategy::Xclip);
        chain.push(Strategy::Xsel);
    } else {
        let macos = MACOS.to_owned();
        if signals.os == macos {
            chain.push(Strategy::Pbcopy);
        }
    }
    chain.push(Strategy::Library);
    chain
}

/// The next move of a delivery under `signals`, after the attempts made so far
/// ended as `outcomes` says, first attempt first.
///
/// A delivery starts with no outcomes. As long as the answer is `Attempt`, the
/// caller tries that strategy, appends what came of it and asks again.
pub fn copy_to_clipboard(signals: &Signals, outcomes: &Vec<AttemptOutcome>) -> (step: DeliveryStep)
    ensures
        step == decide(chain_for(signals@), outcomes@),
{
    let chain = fallback_chain(signals);
    let mut i: usize = 0;
    proof {
        assert(chain@.skip(0) == chain@);
        assert(outcomes@.skip(0) == outcomes@);
    }
    while i < chain.len() && i < outcomes.len()
        invariant
            i <= chain.len(),
            i <= outcomes.len(),
            chain@ == chain_for(signals@),
            decide(chain@, outcomes@) == decide(chain@.skip(i as int), outcomes@.skip(i as int)),
        decreases chain.len() - i,
    {
        proof {
            assert(chain@.skip(i as int).drop_first() == chain@.skip(i as int + 1));
            assert(outcomes@.skip(i as int).drop_first() == outcomes@.skip(i as int + 1));
        }
        match outcomes[i] {
            AttemptOutcome::Written => {
                return DeliveryStep::Delivered(chain[i]);
            },
            AttemptOutcome::Unavailable => {},
            AttemptOutcome::WriteFailed => {},
        }
        i += 1;
    }
    if i < chain.len() {
        DeliveryStep::Attempt(chain[i])
    } else {
        DeliveryStep::Failed(ClipboardError::Unavailable)
    }
}

/// Every chain holds at least one strategy, and the library is its last.
pub proof fn lemma_chain_ends_with_library(signals: SignalsView)
    ensures
        chain_for(signals).len() >= 1,
        chain_for(signals).last() == Strategy::Library,
{
}

/// While every attempt so far has failed and the chain is not used up, the
/// strategy after the last one attempted is due.
pub proof fn lemma_next_strategy_is_due(chain: Seq<Strategy>, outcomes: Seq<AttemptOutcome>)
    requires
        outcomes.len() < chain.len(),
        forall|j: int| 0 <= j < outcomes.len() ==> outcomes[j] != AttemptOutcome::Written,
    ensures
        decide(chain, outcomes) == DeliveryStep::Attempt(chain[outcomes.len() as int]),
    decreases chain.len(),
{
    if outcomes.len() > 0 {
        lemma_next_strategy_is_due(chain.drop_first(), outcomes.drop_first());
    }
}

/// A failed write sends the delivery on as a missing mechanism does: which of
/// the two ways an attempt failed in makes no difference to the next move.
pub proof fn lemma_failed_write_moves_on(
    chain: Seq<Strategy>,
    outcomes: Seq<AttemptOutcome>,
    k: int,
)
    requires
        0 <= k < outcomes.len(),
        outcomes[k] == AttemptOutcome::WriteFailed,
    ensures
        decide(chain, outcomes) == decide(chain, outcomes.update(k, AttemptOutcome::Unavailable)),
    decreases chain.len(),
{
    let other = outcomes.update(k, AttemptOutcome::Unavailable);
    if chain.len() > 0 {
        if k == 0 {
            assert(other.drop_first() == outcomes.drop_first());
        } else {
            assert(other.drop_first() == outcomes.drop_first().update(
                k - 1,
                AttemptOutcome::Unavailable,
            ));
            lemma_failed_write_moves_on(chain.drop_first(), outcomes.drop_first(), k - 1);
        }
    }
}

/// The first strategy that took the text has delivered it: the attempts before
/// it failed, and reports after it change nothing.
pub proof fn lemma_first_written_delivers(
    chain: Seq<Strategy>,
    outcomes: Seq<AttemptOutcome>,
    k: int,
)
    requires
        0 <= k < chain.len(),
        k < outcomes.len(),
        forall|j: int| 0 <= j < k ==> outcomes[j] != AttemptOutcome::Written,
        outcomes[k] == AttemptOutcome::Written,
    ensures
        decide(chain, outcomes) == DeliveryStep::Delivered(chain[k]),
    decreases k,
{
    if k > 0 {
        lemma_first_written_delivers(chain.drop_first(), outcomes.drop_first(), k - 1);
    }
}

/// The delivery fails when every strategy of the chain has failed, and only
/// then: as long as a strategy is left untried, or one took the text, the move
/// is no failure.
pub proof fn lemma_fails_only_when_all_failed(chain: Seq<Strategy>, outcomes: Seq<AttemptOutcome>)
    ensures
        decide(chain, outcomes) == DeliveryStep::Failed(ClipboardError::Unavailable) <==> (
        chain.len() <= outcomes.len() && forall|j: int|
            0 <= j < chain.len() ==> outcomes[j] != AttemptOutcome::Written),
    decreases chain.len(),
{
    if chain.len() > 0 && outcomes.len() > 0 {
        let rest_chain = chain.drop_first();
        let rest = outcomes.drop_first();
        lemma_fails_only_when_all_failed(rest_chain, rest);
        if outcomes[0] != AttemptOutcome::Written {
            if rest_chain.len() <= rest.len() && forall|j: int|
                0 <= j < rest_chain.len() ==> rest[j] != AttemptOutcome::Written {
                assert forall|j: int| 0 <= j < chain.len() implies outcomes[j]
                    != AttemptOutcome::Written by {
                    if j > 0 {
                        assert(rest[j - 1] == outcomes[j]);
                    }
                }
            }
            if chain.len() <= outcomes.len() && forall|j: int|
                0 <= j < chain.len() ==> outcomes[j] != AttemptOutcome::Written {
                assert forall|j: int| 0 <= j < rest_chain.len() implies rest[j]
                    != AttemptOutcome::Written by {
                    assert(rest[j] == outcomes[j + 1]);
                }
            }
        }
    }
}

} // verus!
