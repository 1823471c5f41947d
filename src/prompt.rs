use vstd::prelude::*;
use vstd::string::*;

use crate::manager::PlanManager;
use crate::plan::{Plan, PlanBehavior, ProjectInfo};

verus! {

/// Opens the sentence that introduces the project.
pub const PROJECT_OPENING: &'static str = "You are working on a project called \"";

/// Stands between the project title and its language.
pub const PROJECT_AFTER_TITLE: &'static str = "\" (";

/// Stands between the project language and its description.
pub const PROJECT_AFTER_LANGUAGE: &'static str = "). Project description: ";

/// Ends an entry of the prompt (the project sentence, each behavior).
pub const BLANK_LINE: &'static str = "\n\n";

/// Announces the list of behaviors.
pub const BEHAVIORS_INTRO: &'static str = "This application has the following defined behaviors:\n\n";

/// Stands between a behavior's number and its name.
pub const ENTRY_AFTER_NUMBER: &'static str = ". **";

/// Stands between a behavior's name and its id.
pub const ENTRY_AFTER_NAME: &'static str = "** (ID: ";

/// Stands between a behavior's id and its instructions.
pub const ENTRY_AFTER_ID: &'static str = ")\n   ";

/// Closes the prompt: how to use the behaviors, and with which tools.
pub const CLOSING: &'static str = "When implementing features or making changes, refer to these behaviors to ensure consistency with the application's intended functionality. Use the builder extension tools to implement these behaviors effectively.";

/// The decimal digit for `d`, which is below ten.
pub open spec fn digit_char(d: nat) -> char {
    if d == 0 {
        '0'
    } else if d == 1 {
        '1'
    } else if d == 2 {
        '2'
    } else if d == 3 {
        '3'
    } else if d == 4 {
        '4'
    } else if d == 5 {
        '5'
    } else if d == 6 {
        '6'
    } else if d == 7 {
        '7'
    } else if d == 8 {
        '8'
    } else {
        '9'
    }
}

/// `n` written in decimal, without leading zeros.
pub open spec fn decimal(n: nat) -> Seq<char>
    decreases n,
{
    if n < 10 {
        seq![digit_char(n)]
    } else {
        decimal(n / 10).push(digit_char(n % 10))
    }
}

/// The sentence that names the project's title, language and description.
pub open spec fn header_text(p: ProjectInfo) -> Seq<char> {
    PROJECT_OPENING@ + p.title@ + PROJECT_AFTER_TITLE@ + p.language@ + PROJECT_AFTER_LANGUAGE@
        + p.description@ + BLANK_LINE@
}

/// The entry of behavior `b`, numbered `k`: its name, id and instructions.
pub open spec fn entry_text(k: nat, b: PlanBehavior) -> Seq<char> {
    decimal(k) + ENTRY_AFTER_NUMBER@ + b.name@ + ENTRY_AFTER_NAME@ + b.id@ + ENTRY_AFTER_ID@
        + b.behavior@ + BLANK_LINE@
}

/// The entries of `bs` in order, numbered from one.
pub open spec fn entries_text(bs: Seq<PlanBehavior>) -> Seq<char>
    decreases bs.len(),
{
    if bs.len() == 0 {
        Seq::empty()
    } else {
        entries_text(bs.drop_last()) + entry_text(bs.len(), bs.last())
    }
}

/// The whole prompt rendered from a plan.
pub open spec fn prompt_text(p: Plan) -> Seq<char> {
    header_text(p.project) + BEHAVIORS_INTRO@ + entries_text(p.behaviors@) + CLOSING@
}

/// Where the entry of behavior `i` begins in the prompt rendered from `p`.
pub open spec fn entry_start(p: Plan, i: int) -> int {
    (header_text(p.project).len() + BEHAVIORS_INTRO@.len() + entries_text(p.behaviors@.take(i)).len()) as int
}

/// The entries of the first `i` behaviors are a prefix of the entries of all.
proof fn lemma_entries_prefix(bs: Seq<PlanBehavior>, i: int)
    requires
        0 <= i <= bs.len(),
    ensures
        entries_text(bs.take(i)).len() <= entries_text(bs).len(),
        entries_text(bs).take(entries_text(bs.take(i)).len() as int) == entries_text(bs.take(i)),
    decreases bs.len(),
{
    if i == bs.len() {
        assert(bs.take(i) =~= bs);
        assert(entries_text(bs).take(entries_text(bs).len() as int) =~= entries_text(bs));
    } else {
        let rest = bs.drop_last();
        lemma_entries_prefix(rest, i);
        assert(rest.take(i) =~= bs.take(i));
        let short = entries_text(bs.take(i));
        assert(entries_text(bs).take(short.len() as int) =~= entries_text(rest).take(short.len() as int));
    }
}

/// The prompt opens with the sentence on the project, whose title comes
/// right after the opening words, and each behavior's entry, numbered by its
/// position from one, stands in the prompt in list order: the entry of
/// behavior `i` ends where the entry of behavior `i + 1` begins.
pub proof fn lemma_prompt_layout(p: Plan, i: int)
    requires
        0 <= i < p.behaviors@.len(),
    ensures
        prompt_text(p).take(header_text(p.project).len() as int) == header_text(p.project),
        prompt_text(p).subrange(
            PROJECT_OPENING@.len() as int,
            (PROJECT_OPENING@.len() + p.project.title@.len()) as int,
        ) == p.project.title@,
        prompt_text(p).subrange(
            entry_start(p, i),
            entry_start(p, i) + entry_text((i + 1) as nat, p.behaviors@[i]).len(),
        ) == entry_text((i + 1) as nat, p.behaviors@[i]),
        entry_start(p, i + 1) == entry_start(p, i) + entry_text((i + 1) as nat, p.behaviors@[i]).len(),
{
    let bs = p.behaviors@;
    let head = header_text(p.project) + BEHAVIORS_INTRO@;
    let upto = bs.take(i + 1);
    assert(upto.drop_last() =~= bs.take(i));
    assert(upto.last() == bs[i]);
    let e = entry_text((i + 1) as nat, bs[i]);
    assert(entries_text(upto) == entries_text(bs.take(i)) + e);
    lemma_entries_prefix(bs, i + 1);
    let all = entries_text(bs);
    let s = prompt_text(p);
    assert(s == head + all + CLOSING@);
    let k = entry_start(p, i);
    assert(all.take(entries_text(upto).len() as int) == entries_text(bs.take(i)) + e);
    assert(s.subrange(k, k + e.len()) =~= e) by {
        assert forall|m: int| 0 <= m < e.len() implies #[trigger] s.subrange(k, k + e.len())[m] == e[m] by {
            assert(s[k + m] == all[entries_text(bs.take(i)).len() + m]);
            assert(all.take(entries_text(upto).len() as int)[entries_text(bs.take(i)).len() + m] == e[m]);
        }
    }
    assert(s.take(header_text(p.project).len() as int) =~= header_text(p.project));
    assert(s.subrange(PROJECT_OPENING@.len() as int, (PROJECT_OPENING@.len() + p.project.title@.len()) as int)
        =~= p.project.title@);
}

/// The one-character text of digit `d`.
fn digit_str(d: usize) -> (r: &'static str)
    requires
        d < 10,
    ensures
        r@ == seq![digit_char(d as nat)],
{
    proof {
        reveal_strlit("0");
        reveal_strlit("1");
        reveal_strlit("2");
        reveal_strlit("3");
        reveal_strlit("4");
        reveal_strlit("5");
        reveal_strlit("6");
        reveal_strlit("7");
        reveal_strlit("8");
        reveal_strlit("9");
    }
    if d == 0 {
        "0"
    } else if d == 1 {
        "1"
    } else if d == 2 {
        "2"
    } else if d == 3 {
        "3"
    } else if d == 4 {
        "4"
    } else if d == 5 {
        "5"
    } else if d == 6 {
        "6"
    } else if d == 7 {
        "7"
    } else if d == 8 {
        "8"
    } else {
        "9"
    }
}

/// Writes `n` in decimal.
pub fn decimal_string(n: usize) -> (r: String)
    ensures
        r@ == decimal(n as nat),
    decreases n,
{
    if n < 10 {
        String::from_str(digit_str(n))
    } else {
        let mut s = decimal_string(n / 10);
        s.append(digit_str(n % 10));
        s
    }
}

impl PlanManager {
    /// Renders a plan as a prompt: a sentence on the project, then each
    /// behavior numbered from one in list order, then closing instructions.
    pub fn generate_system_prompt(plan: &Plan) -> (r: String)
        ensures
            r@ == prompt_text(*plan),
    {
        let ghost bs = plan.behaviors@;
        let mut prompt = String::from_str(PROJECT_OPENING);
        prompt.append(plan.project.title.as_str());
        prompt.append(PROJECT_AFTER_TITLE);
        prompt.append(plan.project.language.as_str());
        prompt.append(PROJECT_AFTER_LANGUAGE);
        prompt.append(plan.project.description.as_str());
        prompt.append(BLANK_LINE);
        prompt.append(BEHAVIORS_INTRO);
        let ghost head = header_text(plan.project) + BEHAVIORS_INTRO@;
        assert(prompt@ == head);
        assert(bs.subrange(0, 0) =~= Seq::<PlanBehavior>::empty());
        assert(prompt@ =~= head + entries_text(bs.subrange(0, 0)));
        let n = plan.behaviors.len();
        let mut i: usize = 0;
        while i < n
            invariant
                bs == plan.behaviors@,
                n == bs.len(),
                0 <= i <= n,
                head == header_text(plan.project) + BEHAVIORS_INTRO@,
                prompt@ == head + entries_text(bs.subrange(0, i as int)),
            decreases n - i,
        {
            let b = &plan.behaviors[i];
            let mut entry = decimal_string(i + 1);
            entry.append(ENTRY_AFTER_NUMBER);
            entry.append(b.name.as_str());
            entry.append(ENTRY_AFTER_NAME);
            entry.append(b.id.as_str());
            entry.append(ENTRY_AFTER_ID);
            entry.append(b.behavior.as_str());
            entry.append(BLANK_LINE);
            assert(entry@ == entry_text((i + 1) as nat, bs[i as int]));
            let ghost before = prompt@;
            prompt.append(entry.as_str());
            proof {
                let next = bs.subrange(0, i + 1);
                assert(next.drop_last() =~= bs.subrange(0, i as int));
                assert(next.last() == bs[i as int]);
                assert(entries_text(next) == entries_text(bs.subrange(0, i as int)) + entry@);
                assert(prompt@ =~= head + entries_text(next));
            }
            i += 1;
        }
        assert(bs.subrange(0, n as int) =~= bs);
        prompt.append(CLOSING);
        prompt
    }
}

} // verus!
