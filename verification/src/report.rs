//! The plan report: what a run is about to do, as text.
use crate::step::Plan;
use crate::text::{decimal, join_lines, joined, push_decimal, texts};
use colored::Colorize;
use vstd::prelude::*;
use vstd::string::StringExecFns;

verus! {

/// The line above and below the title.
pub const RULE: &'static str = "====================================";

/// The line between the parts of the report.
pub const DIVIDER: &'static str = "------------------------------------";

/// The line above the state of a step.
pub const STATE_MARK: &'static str = "---";

/// The title of the report.
pub const TITLE: &'static str = "          Execution Plan Dump        ";

/// The label of the number of steps.
pub const STEP_COUNT: &'static str = "Step Count";

/// The label of the seed.
pub const SEED: &'static str = "Seed";

/// The label of a step's command.
pub const COMMAND: &'static str = "Command:";

/// The label of a step's state.
pub const STATE: &'static str = "State:";

/// The code that turns the text behind it green on a terminal.
pub const GREEN: &'static str = "\u{1b}[32m";

/// The code that turns the text behind it bold on a terminal.
pub const BOLD: &'static str = "\u{1b}[1m";

/// The code that ends every colour and style on a terminal.
pub const RESET: &'static str = "\u{1b}[0m";

/// The character that every terminal code begins with.
pub const ESCAPE: char = '\u{1b}';

/// The fixed words of the report, as they will be shown: plain, or wrapped in
/// the codes that colour them on a terminal.
#[derive(Debug)]
pub struct Labels {
    /// The title, in green.
    pub title: String,
    /// The words `Step Count`, in bold.
    pub step_count: String,
    /// The word `Seed`, in bold.
    pub seed: String,
    /// The word `Command:`, in bold.
    pub command: String,
    /// The word `State:`, in bold.
    pub state: String,
}

/// What the report says of one step.
#[derive(Debug)]
pub struct PlanEntry {
    /// The heading of the step, as it will be shown.
    pub title: String,
    /// The command of the step's plan.
    pub command: String,
    /// The state of the step, as YAML.
    pub state: String,
}

/// `shown` is `text` as the `colored` crate hands it out under the style with
/// this code. Where colours are off, that is the text as it is. Where they are
/// on, it is the code, the text and the reset. The crate reads its switch once
/// more for the code, so where colours are turned off in between, the code is
/// left out and the reset stays.
pub open spec fn painted(shown: Seq<char>, text: Seq<char>, code: Seq<char>) -> bool {
    ||| shown == text
    ||| shown == code + text + RESET@
    ||| shown == text + RESET@
}

/// `Colorize::green` of `colored`, as text. Whether colours are on depends on
/// the terminal and the environment. A text that holds a reset code is changed
/// on the inside as well, so the contract speaks of texts without an escape
/// character only.
#[verifier::external_body]
pub(crate) fn green(text: &str) -> (shown: String)
    ensures
        !text@.contains(ESCAPE) ==> painted(shown@, text@, GREEN@),
{
    text.green().to_string()
}

/// `Colorize::bold` of `colored`, as text. Whether styles are on depends on the
/// terminal and the environment. A text that holds a reset code is changed on
/// the inside as well, so the contract speaks of texts without an escape
/// character only.
#[verifier::external_body]
pub(crate) fn bold(text: &str) -> (shown: String)
    ensures
        !text@.contains(ESCAPE) ==> painted(shown@, text@, BOLD@),
{
    text.bold().to_string()
}

/// `serde_yaml::to_string` on a YAML value: the value as text, or nothing where
/// it cannot be written.
#[verifier::external_body]
pub(crate) fn yaml_text(value: &serde_yaml::Value) -> Option<String> {
    serde_yaml::to_string(value).ok()
}

/// The heading of a step before it is coloured: steps count from 1.
pub open spec fn heading(index: nat, id: Seq<char>) -> Seq<char> {
    "Step "@ + decimal(index + 1) + ": "@ + id
}

/// A label, a colon, a space and a number.
pub open spec fn counted(label: Seq<char>, n: nat) -> Seq<char> {
    label + ": "@ + decimal(n)
}

/// The lines at the head of the report.
pub open spec fn head_lines(labels: Labels, step_count: nat, seed: u64) -> Seq<Seq<char>> {
    seq![
        RULE@,
        labels.title@,
        RULE@,
        counted(labels.step_count@, step_count),
        counted(labels.seed@, seed as nat),
        DIVIDER@,
    ]
}

/// The lines of one step.
pub open spec fn entry_lines(labels: Labels, entry: PlanEntry) -> Seq<Seq<char>> {
    seq![
        entry.title@,
        DIVIDER@,
        labels.command@,
        entry.command@,
        labels.state@,
        STATE_MARK@,
        entry.state@,
        DIVIDER@,
    ]
}

/// The lines of the report: the head, then the steps in order.
pub open spec fn report_lines(
    labels: Labels,
    step_count: nat,
    seed: u64,
    entries: Seq<PlanEntry>,
) -> Seq<Seq<char>>
    decreases entries.len(),
{
    if entries.len() == 0 {
        head_lines(labels, step_count, seed)
    } else {
        report_lines(labels, step_count, seed, entries.drop_last()) + entry_lines(
            labels,
            entries.last(),
        )
    }
}

/// The report as one text.
pub open spec fn report_text(
    labels: Labels,
    step_count: nat,
    seed: u64,
    entries: Seq<PlanEntry>,
) -> Seq<char> {
    joined(report_lines(labels, step_count, seed, entries))
}

/// None of the fixed words of the report holds an escape character.
pub proof fn lemma_labels_hold_no_escape()
    ensures
        !TITLE@.contains(ESCAPE),
        !STEP_COUNT@.contains(ESCAPE),
        !SEED@.contains(ESCAPE),
        !COMMAND@.contains(ESCAPE),
        !STATE@.contains(ESCAPE),
{
    reveal_strlit("          Execution Plan Dump        ");
    reveal_strlit("Step Count");
    reveal_strlit("Seed");
    reveal_strlit("Command:");
    reveal_strlit("State:");
}

impl Labels {
    /// Each label is its word in its style: the title in green, the others in
    /// bold.
    pub open spec fn is_styled(&self) -> bool {
        &&& painted(self.title@, TITLE@, GREEN@)
        &&& painted(self.step_count@, STEP_COUNT@, BOLD@)
        &&& painted(self.seed@, SEED@, BOLD@)
        &&& painted(self.command@, COMMAND@, BOLD@)
        &&& painted(self.state@, STATE@, BOLD@)
    }

    /// The labels in the styles of the report.
    pub(crate) fn styled() -> (labels: Self)
        ensures
            labels.is_styled(),
    {
        proof {
            lemma_labels_hold_no_escape();
        }
        Self {
            title: green(TITLE),
            step_count: bold(STEP_COUNT),
            seed: bold(SEED),
            command: bold(COMMAND),
            state: bold(STATE),
        }
    }
}

/// The heading of the step at `index`, before it is coloured.
pub fn step_heading(index: usize, id: &str) -> (text: String)
    requires
        index < usize::MAX,
    ensures
        text@ == heading(index as nat, id@),
{
    let mut text = "Step ".to_owned();
    push_decimal(&mut text, (index + 1) as u64);
    text.append(": ");
    text.append(id);
    text
}

/// What the report says of a step that has planned: the heading of the step in
/// green, the command of the plan, and the state of the step as it was written,
/// or nothing where it could not be written.
pub fn plan_entry(index: usize, plan: Plan, state: Option<String>) -> (entry: PlanEntry)
    requires
        index < usize::MAX,
    ensures
        !heading(index as nat, plan.id@).contains(ESCAPE) ==> painted(
            entry.title@,
            heading(index as nat, plan.id@),
            GREEN@,
        ),
        entry.command == plan.command,
        entry.state@ == match state {
            Some(text) => text@,
            None => Seq::empty(),
        },
{
    let title = green(step_heading(index, plan.id.as_str()).as_str());
    let state = match state {
        Some(text) => text,
        None => String::new(),
    };
    PlanEntry { title, command: plan.command, state }
}

/// A label, a colon, a space and a number.
fn counted_line(label: &str, n: u64) -> (text: String)
    ensures
        text@ == counted(label@, n as nat),
{
    let mut text = label.to_owned();
    text.append(": ");
    push_decimal(&mut text, n);
    text
}

/// Writes the report of a run of `step_count` steps from `seed`.
pub fn render(labels: &Labels, step_count: usize, seed: u64, entries: &Vec<PlanEntry>) -> (text:
    String)
    ensures
        text@ == report_text(*labels, step_count as nat, seed, entries@),
{
    let mut lines: Vec<String> = Vec::new();
    lines.push(RULE.to_owned());
    lines.push(labels.title.clone());
    lines.push(RULE.to_owned());
    lines.push(counted_line(labels.step_count.as_str(), step_count as u64));
    lines.push(counted_line(labels.seed.as_str(), seed));
    lines.push(DIVIDER.to_owned());
    assert(texts(lines@) =~= head_lines(*labels, step_count as nat, seed));
    let mut at: usize = 0;
    while at < entries.len()
        invariant
            at <= entries.len(),
            texts(lines@) == report_lines(
                *labels,
                step_count as nat,
                seed,
                entries@.take(at as int),
            ),
        decreases entries.len() - at,
    {
        let ghost before = texts(lines@);
        let entry = &entries[at];
        lines.push(entry.title.clone());
        lines.push(DIVIDER.to_owned());
        lines.push(labels.command.clone());
        lines.push(entry.command.clone());
        lines.push(labels.state.clone());
        lines.push(STATE_MARK.to_owned());
        lines.push(entry.state.clone());
        lines.push(DIVIDER.to_owned());
        proof {
            let seen = entries@.take(at + 1);
            assert(seen.drop_last() =~= entries@.take(at as int));
            assert(seen.last() == entries@[at as int]);
            assert(texts(lines@) =~= before + entry_lines(*labels, entries@[at as int]));
        }
        at += 1;
    }
    proof {
        assert(entries@.take(entries@.len() as int) =~= entries@);
    }
    join_lines(&lines)
}

} // verus!
