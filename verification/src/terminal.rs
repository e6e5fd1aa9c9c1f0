//! The terminals that agents run in: which one a command owns, and how a new
//! one is spawned.

use crate::path::{display, display_text, raw, same_path};
use crate::text::{join, joined, texts};
use std::path::PathBuf;
use vstd::prelude::*;
use vstd::string::*;
use vstd::utf8::*;

verus! {

/// Identifies the terminal that a command owns.
#[derive(Debug, PartialEq, Eq)]
pub struct TaskId(pub String);

/// The identity of the terminal for a command, from the text of the directory
/// it runs in and the command's words.
pub open spec fn task_id_text(cwd: Seq<char>, words: Seq<Seq<char>>) -> Seq<char> {
    "zrush:"@ + cwd + ":"@ + joined(words)
}

/// The identity of the terminal that `command` owns in the directory written
/// `cwd`.
pub fn task_id_in(cwd: &str, command: &[String]) -> (id: TaskId)
    ensures
        id.0@ == task_id_text(cwd@, texts(command@)),
{
    let mut text = "zrush:".to_string();
    text.append(cwd);
    text.append(":");
    text.append(join(command).as_str());
    TaskId(text)
}

/// Identifies the terminal a given agent command owns. Keyed on the full
/// command, not just the program, so resuming two different sessions from the
/// same worktree does not collide on one terminal.
pub fn zrush_task_id(cwd: &PathBuf, command: &[String]) -> (id: TaskId)
    ensures
        id.0@ == task_id_text(display_text(raw(*cwd)), texts(command@)),
{
    task_id_in(display(cwd).as_str(), command)
}

/// Whether the focus follows a terminal as it is revealed.
#[derive(Debug, Clone, Copy, PartialEq, Eq, Structural)]
pub enum RevealStrategy {
    Always,
    NoFocus,
    Never,
}

/// Where a terminal is revealed.
#[derive(Debug, Clone, Copy, PartialEq, Eq, Structural)]
pub enum RevealTarget {
    Center,
    Dock,
}

/// How a terminal is to be spawned.
#[derive(Debug, PartialEq, Eq)]
pub struct SpawnInTerminal {
    pub id: TaskId,
    pub full_label: String,
    pub label: String,
    pub command: Option<String>,
    pub args: Vec<String>,
    pub command_label: String,
    pub cwd: Option<PathBuf>,
    pub use_new_terminal: bool,
    pub allow_concurrent_runs: bool,
    pub reveal: RevealStrategy,
    pub reveal_target: RevealTarget,
    pub show_summary: bool,
    pub show_command: bool,
    pub show_rerun: bool,
}

/// What a terminal that runs `program` is called.
pub open spec fn terminal_label(program: Seq<char>) -> Seq<char> {
    "zrush \u{b7} "@ + program
}

impl SpawnInTerminal {
    /// Whether this spawns `command` in `cwd` as the task `id`: a terminal of
    /// its own in the center, brought to the front, without the summary,
    /// command line and rerun button that an ordinary task would show.
    pub open spec fn runs(self, id: Seq<char>, cwd: PathBuf, command: Seq<String>) -> bool {
        &&& command.len() > 0
        &&& self.id.0@ == id
        &&& self.full_label@ == terminal_label(command[0]@)
        &&& self.label@ == terminal_label(command[0]@)
        &&& self.command == Some(command[0])
        &&& self.args@ == command.drop_first()
        &&& self.command_label@ == joined(texts(command))
        &&& self.cwd == Some(cwd)
        &&& self.use_new_terminal
        &&& self.allow_concurrent_runs
        &&& self.reveal == RevealStrategy::Always
        &&& self.reveal_target == RevealTarget::Center
        &&& !self.show_summary
        &&& !self.show_command
        &&& !self.show_rerun
    }
}

/// Whether a terminal runs the task with this identity. A terminal that was
/// not spawned as a task runs none.
pub open spec fn runs_task(terminal: Option<TaskId>, id: Seq<char>) -> bool {
    terminal matches Some(task) && task.0@ == id
}

/// What is done to bring up the terminal for a command.
#[derive(Debug, PartialEq, Eq)]
pub enum TerminalPlan {
    /// There is no command to run.
    EmptyCommand,
    /// The terminal at this place already runs the command: show it.
    Activate(usize),
    /// A terminal is spawned.
    Spawn(SpawnInTerminal),
}

impl TerminalPlan {
    /// Whether this is what brings up `command` in `cwd` as the task `id` while
    /// `terminals` are open: nothing for an empty command, the first terminal
    /// that already runs the task, else a new one.
    pub open spec fn brings_up(
        self,
        id: Seq<char>,
        cwd: PathBuf,
        command: Seq<String>,
        terminals: Seq<Option<TaskId>>,
    ) -> bool {
        match self {
            TerminalPlan::EmptyCommand => command.len() == 0,
            TerminalPlan::Activate(at) => {
                &&& command.len() > 0
                &&& at < terminals.len()
                &&& runs_task(terminals[at as int], id)
                &&& forall|i: int| 0 <= i < at ==> !runs_task(#[trigger] terminals[i], id)
            },
            TerminalPlan::Spawn(spawn) => {
                &&& spawn.runs(id, cwd, command)
                &&& forall|i: int|
                    0 <= i < terminals.len() ==> !runs_task(#[trigger] terminals[i], id)
            },
        }
    }
}

/// The first open terminal that runs the task `id`.
pub fn find_terminal(terminals: &Vec<Option<TaskId>>, id: &TaskId) -> (found: Option<usize>)
    ensures
        match found {
            Some(at) => {
                &&& at < terminals@.len()
                &&& runs_task(terminals@[at as int], id.0@)
                &&& forall|i: int| 0 <= i < at ==> !runs_task(#[trigger] terminals@[i], id.0@)
            },
            None => forall|i: int|
                0 <= i < terminals@.len() ==> !runs_task(#[trigger] terminals@[i], id.0@),
        },
{
    let mut at: usize = 0;
    while at < terminals.len()
        invariant
            at <= terminals@.len(),
            forall|i: int| 0 <= i < at ==> !runs_task(#[trigger] terminals@[i], id.0@),
        decreases terminals@.len() - at,
    {
        if let Some(task) = &terminals[at] {
            if task.0 == id.0 {
                return Some(at);
            }
        }
        at += 1;
    }
    None
}

/// How the terminal for `command` in `cwd` is brought up as the task `id` while
/// `terminals` are open. Coming back to a running session must not run its
/// command again, so a terminal that already runs it is shown in place of a new
/// one.
pub fn plan_task(
    id: TaskId,
    cwd: PathBuf,
    command: Vec<String>,
    terminals: &Vec<Option<TaskId>>,
) -> (plan: TerminalPlan)
    ensures
        plan.brings_up(id.0@, cwd, command@, terminals@),
{
    if command.len() == 0 {
        return TerminalPlan::EmptyCommand;
    }
    if let Some(at) = find_terminal(terminals, &id) {
        return TerminalPlan::Activate(at);
    }
    let mut label = "zrush \u{b7} ".to_string();
    label.append(command[0].as_str());
    let command_label = join(command.as_slice());
    let program = command[0].clone();
    let mut args: Vec<String> = Vec::new();
    let mut at: usize = 1;
    while at < command.len()
        invariant
            1 <= at <= command@.len(),
            args@ == command@.subrange(1, at as int),
        decreases command@.len() - at,
    {
        args.push(command[at].clone());
        assert(args@ =~= command@.subrange(1, at + 1));
        at += 1;
    }
    assert(args@ =~= command@.drop_first());
    TerminalPlan::Spawn(
        SpawnInTerminal {
            id,
            full_label: label.clone(),
            label,
            command: Some(program),
            args,
            command_label,
            cwd: Some(cwd),
            use_new_terminal: true,
            allow_concurrent_runs: true,
            reveal: RevealStrategy::Always,
            reveal_target: RevealTarget::Center,
            show_summary: false,
            show_command: false,
            show_rerun: false,
        },
    )
}

/// How the terminal that `command` owns in `cwd` is brought up while `terminals`
/// are open.
pub fn plan_terminal(
    cwd: PathBuf,
    command: Vec<String>,
    terminals: &Vec<Option<TaskId>>,
) -> (plan: TerminalPlan)
    ensures
        plan.brings_up(
            task_id_text(display_text(raw(cwd)), texts(command@)),
            cwd,
            command@,
            terminals@,
        ),
{
    let id = zrush_task_id(&cwd, command.as_slice());
    plan_task(id, cwd, command, terminals)
}

/// While a terminal runs a command's task, bringing the command up shows a
/// terminal that runs it and spawns none.
pub proof fn law_running_command_is_not_run_again(
    plan: TerminalPlan,
    id: Seq<char>,
    cwd: PathBuf,
    command: Seq<String>,
    terminals: Seq<Option<TaskId>>,
    at: int,
)
    requires
        plan.brings_up(id, cwd, command, terminals),
        command.len() > 0,
        0 <= at < terminals.len(),
        runs_task(terminals[at], id),
    ensures
        plan matches TerminalPlan::Activate(shown) && shown <= at && runs_task(
            terminals[shown as int],
            id,
        ),
{
}

/// A terminal spawned for a command is the one that the command brings up from
/// then on, as long as it stays open.
pub proof fn law_spawned_terminal_is_found_again(
    spawn: SpawnInTerminal,
    id: Seq<char>,
    cwd: PathBuf,
    command: Seq<String>,
    terminals: Seq<Option<TaskId>>,
    again: TerminalPlan,
)
    requires
        TerminalPlan::Spawn(spawn).brings_up(id, cwd, command, terminals),
        again.brings_up(id, cwd, command, terminals.push(Some(spawn.id))),
    ensures
        again matches TerminalPlan::Activate(shown) && shown == terminals.len(),
{
    let open = terminals.push(Some(spawn.id));
    assert(runs_task(open[terminals.len() as int], id));
    assert forall|i: int| 0 <= i < terminals.len() implies !runs_task(#[trigger] open[i], id) by {
        assert(open[i] == terminals[i]);
    }
}

/// Sequences that agree before a common tail, or after a common head, agree.
proof fn lemma_cancel(head: Seq<char>, a: Seq<char>, b: Seq<char>, tail: Seq<char>)
    ensures
        head + a + tail == head + b + tail <==> a == b,
{
    if head + a + tail == head + b + tail {
        assert((head + a + tail).len() == head.len() + a.len() + tail.len());
        assert((head + b + tail).len() == head.len() + b.len() + tail.len());
        let from = head.len() as int;
        let to = from + a.len();
        assert((head + a + tail).subrange(from, to) =~= a);
        assert((head + b + tail).subrange(from, to) =~= b);
    }
}

/// In one directory, two commands own one terminal exactly when they are
/// written the same.
pub proof fn law_one_directory(cwd: Seq<char>, a: Seq<Seq<char>>, b: Seq<Seq<char>>)
    ensures
        task_id_text(cwd, a) == task_id_text(cwd, b) <==> joined(a) == joined(b),
{
    let head = "zrush:"@ + cwd + ":"@;
    lemma_cancel(head, joined(a), joined(b), Seq::empty());
    assert(head + joined(a) + Seq::<char>::empty() =~= task_id_text(cwd, a));
    assert(head + joined(b) + Seq::<char>::empty() =~= task_id_text(cwd, b));
}

/// One command owns one terminal in each directory: two directories share it
/// exactly when they are written the same.
pub proof fn law_one_terminal_per_directory(a: Seq<char>, b: Seq<char>, words: Seq<Seq<char>>)
    ensures
        task_id_text(a, words) == task_id_text(b, words) <==> a == b,
{
    let tail = ":"@ + joined(words);
    lemma_cancel("zrush:"@, a, b, tail);
    assert("zrush:"@ + a + tail =~= task_id_text(a, words));
    assert("zrush:"@ + b + tail =~= task_id_text(b, words));
}

/// The same command gets two terminals in two worktrees whose paths are
/// Unicode, and shares one exactly where the two paths are spelled the same.
pub proof fn law_two_worktrees_get_two_terminals(
    a: PathBuf,
    b: PathBuf,
    words: Seq<Seq<char>>,
)
    requires
        valid_utf8(raw(a)),
        valid_utf8(raw(b)),
    ensures
        !same_path(a, b) ==> task_id_text(display_text(raw(a)), words) != task_id_text(
            display_text(raw(b)),
            words,
        ),
        task_id_text(display_text(raw(a)), words) == task_id_text(display_text(raw(b)), words)
            <==> raw(a) == raw(b),
{
    decode_utf8_encode_utf8(raw(a));
    decode_utf8_encode_utf8(raw(b));
    law_one_terminal_per_directory(display_text(raw(a)), display_text(raw(b)), words);
}

/// Two commands that differ in one word alone, such as the session they resume,
/// own separate terminals, whatever the words hold.
pub proof fn law_sessions_own_separate_terminals(
    cwd: Seq<char>,
    a: Seq<Seq<char>>,
    b: Seq<Seq<char>>,
    at: int,
)
    requires
        a.len() == b.len(),
        0 <= at < a.len(),
        a[at] != b[at],
        forall|i: int| 0 <= i < a.len() && i != at ==> a[i] == b[i],
    ensures
        task_id_text(cwd, a) != task_id_text(cwd, b),
{
    lemma_one_word_tells_apart(a, b, at);
    law_one_directory(cwd, a, b);
}

proof fn lemma_one_word_tells_apart(a: Seq<Seq<char>>, b: Seq<Seq<char>>, at: int)
    requires
        a.len() == b.len(),
        0 <= at < a.len(),
        a[at] != b[at],
        forall|i: int| 0 <= i < a.len() && i != at ==> a[i] == b[i],
    ensures
        joined(a) != joined(b),
    decreases a.len(),
{
    if a.len() > 1 {
        let none = Seq::<char>::empty();
        if at == a.len() - 1 {
            assert(a.drop_last() =~= b.drop_last());
            let head = joined(a.drop_last()).push(' ');
            lemma_cancel(head, a.last(), b.last(), none);
            assert(head + a.last() + none =~= joined(a));
            assert(head + b.last() + none =~= joined(b));
        } else {
            lemma_one_word_tells_apart(a.drop_last(), b.drop_last(), at);
            let tail = seq![' '] + a.last();
            lemma_cancel(none, joined(a.drop_last()), joined(b.drop_last()), tail);
            assert(none + joined(a.drop_last()) + tail =~= joined(a));
            assert(none + joined(b.drop_last()) + tail =~= joined(b));
        }
    }
}

/// No word holds a space.
pub open spec fn free_of_spaces(words: Seq<Seq<char>>) -> bool {
    forall|i: int, j: int|
        0 <= i < words.len() && 0 <= j < words[i].len() ==> #[trigger] words[i][j] != ' '
}

/// Two commands whose words hold no space own one terminal in a directory only
/// where they are the same command.
pub proof fn law_terminal_tells_the_command(
    cwd: Seq<char>,
    a: Seq<Seq<char>>,
    b: Seq<Seq<char>>,
)
    requires
        a.len() > 0,
        b.len() > 0,
        free_of_spaces(a),
        free_of_spaces(b),
    ensures
        task_id_text(cwd, a) == task_id_text(cwd, b) <==> a == b,
{
    law_one_directory(cwd, a, b);
    if joined(a) == joined(b) {
        lemma_joined_tells_the_words(a, b);
    }
}

proof fn lemma_joined_tells_the_words(a: Seq<Seq<char>>, b: Seq<Seq<char>>)
    requires
        a.len() > 0,
        b.len() > 0,
        free_of_spaces(a),
        free_of_spaces(b),
        joined(a) == joined(b),
    ensures
        a == b,
    decreases a.len() + b.len(),
{
    if a.len() == 1 && b.len() == 1 {
        assert(a =~= b);
    } else if a.len() == 1 {
        let at = joined(b.drop_last()).len() as int;
        assert(joined(b)[at] == ' ');
        assert(a[0][at] == ' ');
    } else if b.len() == 1 {
        let at = joined(a.drop_last()).len() as int;
        assert(joined(a)[at] == ' ');
        assert(b[0][at] == ' ');
    } else {
        let head_a = joined(a.drop_last());
        let head_b = joined(b.drop_last());
        let last_a = a[a.len() - 1];
        let last_b = b[b.len() - 1];
        assert(joined(a) == head_a.push(' ') + last_a);
        assert(joined(b) == head_b.push(' ') + last_b);
        if head_a.len() < head_b.len() {
            let at = head_b.len() as int;
            assert(joined(b)[at] == ' ');
            assert(joined(a)[at] == last_a[at - head_a.len() - 1]);
            assert(a[a.len() - 1][at - head_a.len() - 1] != ' ');
        } else if head_b.len() < head_a.len() {
            let at = head_a.len() as int;
            assert(joined(a)[at] == ' ');
            assert(joined(b)[at] == last_b[at - head_b.len() - 1]);
            assert(b[b.len() - 1][at - head_b.len() - 1] != ' ');
        } else {
            assert(joined(a).take(head_a.len() as int) =~= head_a);
            assert(joined(b).take(head_b.len() as int) =~= head_b);
            assert(joined(a).skip(head_a.len() as int + 1) =~= last_a);
            assert(joined(b).skip(head_b.len() as int + 1) =~= last_b);
            assert forall|i: int, j: int|
                0 <= i < a.drop_last().len() && 0 <= j < a.drop_last()[i].len() implies #[trigger]
                a.drop_last()[i][j] != ' ' by {
                assert(a[i][j] != ' ');
            }
            assert forall|i: int, j: int|
                0 <= i < b.drop_last().len() && 0 <= j < b.drop_last()[i].len() implies #[trigger]
                b.drop_last()[i][j] != ' ' by {
                assert(b[i][j] != ' ');
            }
            lemma_joined_tells_the_words(a.drop_last(), b.drop_last());
            assert(a =~= a.drop_last().push(last_a));
            assert(b =~= b.drop_last().push(last_b));
        }
    }
}

/// The identity of a terminal reads back: a fixed mark, the directory, a colon
/// and the command's words.
pub proof fn law_a_task_id_reads_back(cwd: Seq<char>, words: Seq<Seq<char>>)
    ensures
        task_id_text(cwd, words).len() == 7 + cwd.len() + joined(words).len(),
        task_id_text(cwd, words).take(6) == "zrush:"@,
        task_id_text(cwd, words).subrange(6, 6 + cwd.len() as int) == cwd,
        task_id_text(cwd, words)[6 + cwd.len() as int] == ':',
        task_id_text(cwd, words).skip(7 + cwd.len() as int) == joined(words),
{
    reveal_strlit("zrush:");
    reveal_strlit(":");
    let text = task_id_text(cwd, words);
    assert(text.take(6) =~= "zrush:"@);
    assert(text.subrange(6, 6 + cwd.len() as int) =~= cwd);
    assert(text.skip(7 + cwd.len() as int) =~= joined(words));
}

/// Whatever is spawned for a command runs in the directory asked for, as the
/// command's first word with all the others as its arguments, under the identity
/// it was looked for by.
pub proof fn law_what_is_spawned_is_what_was_asked(
    spawn: SpawnInTerminal,
    id: Seq<char>,
    cwd: PathBuf,
    command: Seq<String>,
    terminals: Seq<Option<TaskId>>,
)
    requires
        TerminalPlan::Spawn(spawn).brings_up(id, cwd, command, terminals),
    ensures
        command.len() > 0,
        spawn.cwd == Some(cwd),
        spawn.command == Some(command[0]),
        spawn.args@.len() == command.len() - 1,
        forall|i: int| 0 < i < command.len() ==> spawn.args@[i - 1] == #[trigger] command[i],
        spawn.id.0@ == id,
        spawn.command_label@ == joined(texts(command)),
{
    assert forall|i: int| 0 < i < command.len() implies spawn.args@[i - 1]
        == #[trigger] command[i] by {
        assert(command.drop_first()[i - 1] == command[i]);
    }
}

/// Whatever is spawned for a command is called after its program, gets a terminal
/// of its own in the center, brought to the front, and shows nothing of a task.
pub proof fn law_an_agent_gets_a_terminal_of_its_own(
    spawn: SpawnInTerminal,
    id: Seq<char>,
    cwd: PathBuf,
    command: Seq<String>,
    terminals: Seq<Option<TaskId>>,
)
    requires
        TerminalPlan::Spawn(spawn).brings_up(id, cwd, command, terminals),
    ensures
        spawn.label@ == "zrush \u{b7} "@ + command[0]@,
        spawn.full_label@ == spawn.label@,
        spawn.use_new_terminal && spawn.allow_concurrent_runs,
        spawn.reveal == RevealStrategy::Always,
        spawn.reveal_target == RevealTarget::Center,
        !spawn.show_summary && !spawn.show_command && !spawn.show_rerun,
{
}

/// A command is refused exactly where it has no words. Any other is shown in the
/// first terminal that has its identity, and spawned exactly where none has.
pub proof fn law_the_first_terminal_with_the_identity_is_shown(
    plan: TerminalPlan,
    id: Seq<char>,
    cwd: PathBuf,
    command: Seq<String>,
    terminals: Seq<Option<TaskId>>,
    at: int,
)
    requires
        plan.brings_up(id, cwd, command, terminals),
        0 <= at <= terminals.len(),
        forall|i: int|
            0 <= i < at ==> !(#[trigger] terminals[i] matches Some(task) && task.0@ == id),
        at < terminals.len() ==> (terminals[at] matches Some(task) && task.0@ == id),
    ensures
        plan is EmptyCommand <==> command.len() == 0,
        command.len() > 0 && at < terminals.len() ==> (plan matches TerminalPlan::Activate(shown)
            && shown == at),
        command.len() > 0 && at == terminals.len() ==> plan is Spawn,
{
    if at < terminals.len() {
        assert(runs_task(terminals[at], id));
    }
    if let TerminalPlan::Activate(shown) = plan {
        assert(runs_task(terminals[shown as int], id));
    }
}

} // verus!
