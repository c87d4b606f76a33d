//! Branches, directives, the registry that classifies input lines, and the
//! shell state that one classified line moves.
use vstd::prelude::*;

verus! {

/// The behaviour bound to an action, chosen once when the shell is built.
#[derive(Clone, Copy, Debug, PartialEq, Eq, Structural)]
pub enum MetaAction {
    /// Leave the shell, wherever the cursor stands.
    Exit,
    /// Move to the parent branch, or leave the shell at the root.
    Up,
    /// List every registered command string with its brief.
    Help,
    /// Show the host's main routing table.
    Show,
}

/// One point of the navigation tree.
///
/// The parent is not owned: it is the position of the parent's directive in
/// the registry, so a child never keeps its parent alive and no cycle of
/// ownership can form.
pub struct ConfigBranch {
    pub parent: Option<usize>,
    pub display: String,
    pub command_str: String,
    pub brief: String,
}

impl ConfigBranch {
    pub fn new(parent: Option<usize>, display: &str, command_str: &str, brief: &str) -> (b:
        ConfigBranch)
        ensures
            b.parent == parent,
            b.display@ == display@,
            b.command_str@ == command_str@,
            b.brief@ == brief@,
    {
        ConfigBranch {
            parent: parent,
            display: display.to_owned(),
            command_str: command_str.to_owned(),
            brief: brief.to_owned(),
        }
    }

    /// The prompt text shown while the cursor stands on this branch.
    pub fn get_display(&self) -> (r: &str)
        ensures
            r@ == self.display@,
    {
        self.display.as_str()
    }
}

/// A command with no navigation target: a command string bound to a behaviour.
pub struct MetaCommand {
    pub command_str: String,
    pub brief: String,
    pub action: MetaAction,
}

impl MetaCommand {
    pub fn new(command_str: &str, brief: &str, action: MetaAction) -> (m: MetaCommand)
        ensures
            m.command_str@ == command_str@,
            m.brief@ == brief@,
            m.action == action,
    {
        MetaCommand { command_str: command_str.to_owned(), brief: brief.to_owned(), action: action }
    }
}

/// What the registry holds: either a branch to move to or an action to run.
pub enum Directive {
    Branch(ConfigBranch),
    Meta(MetaCommand),
}

/// The result of classifying one input line: move the cursor to the branch at
/// a registry position, run the action at a registry position, or nothing known.
#[derive(Clone, Copy, Debug, PartialEq, Eq, Structural)]
pub enum StateMessage {
    StateMove(usize),
    RunFunction(usize),
    UnknownCommand,
}

impl Directive {
    pub open spec fn cmd(&self) -> Seq<char> {
        match self {
            Directive::Branch(b) => b.command_str@,
            Directive::Meta(m) => m.command_str@,
        }
    }

    pub open spec fn brief_text(&self) -> Seq<char> {
        match self {
            Directive::Branch(b) => b.brief@,
            Directive::Meta(m) => m.brief@,
        }
    }

    /// The outcome that this directive stands for when it sits at `handle`.
    pub open spec fn message_at(&self, handle: usize) -> StateMessage {
        match self {
            Directive::Branch(_) => StateMessage::StateMove(handle),
            Directive::Meta(_) => StateMessage::RunFunction(handle),
        }
    }

    pub fn get_cmd(&self) -> (r: &str)
        ensures
            r@ == self.cmd(),
    {
        match self {
            Directive::Branch(b) => b.command_str.as_str(),
            Directive::Meta(m) => m.command_str.as_str(),
        }
    }

    pub fn get_brief(&self) -> (r: &str)
        ensures
            r@ == self.brief_text(),
    {
        match self {
            Directive::Branch(b) => b.brief.as_str(),
            Directive::Meta(m) => m.brief.as_str(),
        }
    }

    pub fn get_state_message(&self, handle: usize) -> (r: StateMessage)
        ensures
            r == self.message_at(handle),
    {
        match self {
            Directive::Branch(_) => StateMessage::StateMove(handle),
            Directive::Meta(_) => StateMessage::RunFunction(handle),
        }
    }

    /// Exact, case-sensitive comparison of the command string with `key`.
    pub fn matches(&self, key: &String) -> (r: bool)
        ensures
            r == (self.cmd() == key@),
    {
        match self {
            Directive::Branch(b) => b.command_str == *key,
            Directive::Meta(m) => m.command_str == *key,
        }
    }
}

/// `i` is the earliest position whose command string is `input`.
pub open spec fn first_match(ds: Seq<Directive>, input: Seq<char>, i: int) -> bool {
    &&& 0 <= i < ds.len()
    &&& ds[i].cmd() == input
    &&& forall|j: int| 0 <= j < i ==> ds[j].cmd() != input
}

/// The outcome of the directive at position `i`.
pub open spec fn outcome_at(ds: Seq<Directive>, i: int) -> StateMessage {
    ds[i].message_at(i as usize)
}

/// Classification of `input`: the outcome of the earliest directive whose
/// command string equals it, or `UnknownCommand` if there is none.
pub open spec fn resolve(ds: Seq<Directive>, input: Seq<char>) -> StateMessage {
    if exists|i: int| first_match(ds, input, i) {
        outcome_at(ds, choose|i: int| first_match(ds, input, i))
    } else {
        StateMessage::UnknownCommand
    }
}

/// At most one position is the earliest match.
pub proof fn lemma_first_match_unique(ds: Seq<Directive>, input: Seq<char>, i: int, k: int)
    requires
        first_match(ds, input, i),
        first_match(ds, input, k),
    ensures
        i == k,
{
    if i < k {
        assert(ds[i].cmd() != input);
    } else if k < i {
        assert(ds[k].cmd() != input);
    }
}

/// When `i` is the earliest match, classification gives the outcome at `i`.
pub proof fn lemma_resolve_at(ds: Seq<Directive>, input: Seq<char>, i: int)
    requires
        first_match(ds, input, i),
    ensures
        resolve(ds, input) == outcome_at(ds, i),
{
    let k = choose|k: int| first_match(ds, input, k);
    lemma_first_match_unique(ds, input, i, k);
}

/// The message names a branch or an action that the registry holds.
pub open spec fn message_valid(ds: Seq<Directive>, m: StateMessage) -> bool {
    match m {
        StateMessage::StateMove(i) => is_branch_at(ds, i as int),
        StateMessage::RunFunction(i) => is_meta_at(ds, i as int),
        StateMessage::UnknownCommand => true,
    }
}

pub open spec fn is_branch_at(ds: Seq<Directive>, i: int) -> bool {
    0 <= i < ds.len() && ds[i] is Branch
}

pub open spec fn is_meta_at(ds: Seq<Directive>, i: int) -> bool {
    0 <= i < ds.len() && ds[i] is Meta
}

/// Every classification names something that the registry holds.
pub proof fn lemma_resolve_valid(ds: Seq<Directive>, input: Seq<char>)
    requires
        ds.len() <= usize::MAX,
    ensures
        message_valid(ds, resolve(ds, input)),
{
    if exists|i: int| first_match(ds, input, i) {
        let i = choose|i: int| first_match(ds, input, i);
        lemma_resolve_at(ds, input, i);
    }
}

/// The ordered collection of directives used to classify input.
pub struct Registry {
    pub known_directives: Vec<Directive>,
}

impl View for Registry {
    type V = Seq<Directive>;

    open spec fn view(&self) -> Seq<Directive> {
        self.known_directives@
    }
}

impl Registry {
    pub fn new() -> (r: Registry)
        ensures
            r@ == Seq::<Directive>::empty(),
    {
        Registry { known_directives: Vec::new() }
    }

    /// Appends `c` after every directive already registered.
    pub fn add(&mut self, c: Directive)
        ensures
            final(self)@ == old(self)@.push(c),
    {
        self.known_directives.push(c);
    }

    /// Scans the directives in order and returns the outcome of the first one
    /// whose command string equals `input` exactly.
    pub fn determine_activity(&self, input: &str) -> (r: StateMessage)
        ensures
            r == resolve(self@, input@),
            message_valid(self@, r),
    {
        let key = input.to_owned();
        let n = self.known_directives.len();
        proof {
            lemma_resolve_valid(self@, input@);
        }
        let mut i: usize = 0;
        while i < n
            invariant
                n == self@.len(),
                i <= n,
                key@ == input@,
                forall|j: int| 0 <= j < i ==> self@[j].cmd() != input@,
            decreases n - i,
        {
            let d = &self.known_directives[i];
            if d.matches(&key) {
                proof {
                    lemma_resolve_at(self@, input@, i as int);
                }
                return d.get_state_message(i);
            }
            i = i + 1;
        }
        StateMessage::UnknownCommand
    }

    /// Every command string paired with its brief, in registration order.
    pub fn help_entries(&self) -> (r: Vec<(String, String)>)
        ensures
            r@.len() == self@.len(),
            forall|i: int|
                0 <= i < r@.len() ==> r@[i].0@ == self@[i].cmd() && r@[i].1@
                    == self@[i].brief_text(),
    {
        let mut out: Vec<(String, String)> = Vec::new();
        let n = self.known_directives.len();
        let mut i: usize = 0;
        while i < n
            invariant
                n == self@.len(),
                i <= n,
                out@.len() == i,
                forall|j: int|
                    0 <= j < i ==> out@[j].0@ == self@[j].cmd() && out@[j].1@
                        == self@[j].brief_text(),
            decreases n - i,
        {
            let d = &self.known_directives[i];
            out.push((d.get_cmd().to_owned(), d.get_brief().to_owned()));
            i = i + 1;
        }
        out
    }
}

/// What the driver of the shell has to do after one line was handled.
#[derive(Clone, Copy, Debug, PartialEq, Eq, Structural)]
pub enum Effect {
    /// Nothing beyond the state change already made; read the next line.
    Proceed,
    /// Terminate the process with exit code 0.
    Terminate,
    /// Print every registered command string with its brief.
    ListDirectives,
    /// Print the host's main routing table.
    ShowRoutes,
    /// Report the line as unknown; the state is unchanged.
    Unknown,
    /// A branch names a parent that the registry does not hold as a branch:
    /// a construction bug, fatal to the shell.
    BrokenParent,
}

/// The parent link of the branch at `i`.
pub open spec fn parent_of(ds: Seq<Directive>, i: int) -> Option<usize> {
    ds[i]->Branch_0.parent
}

/// The new cursor and the effect of running `a` with the cursor at `cur`.
pub open spec fn action_step(ds: Seq<Directive>, cur: int, a: MetaAction) -> (int, Effect) {
    match a {
        MetaAction::Exit => (cur, Effect::Terminate),
        MetaAction::Help => (cur, Effect::ListDirectives),
        MetaAction::Show => (cur, Effect::ShowRoutes),
        MetaAction::Up => match parent_of(ds, cur) {
            None => (cur, Effect::Terminate),
            Some(p) => if is_branch_at(ds, p as int) {
                (p as int, Effect::Proceed)
            } else {
                (cur, Effect::BrokenParent)
            },
        },
    }
}

/// The new cursor and the effect of applying the outcome `m` at `cur`.
pub open spec fn apply_step(ds: Seq<Directive>, cur: int, m: StateMessage) -> (int, Effect) {
    match m {
        StateMessage::StateMove(i) => (i as int, Effect::Proceed),
        StateMessage::RunFunction(i) => action_step(ds, cur, ds[i as int]->Meta_0.action),
        StateMessage::UnknownCommand => (cur, Effect::Unknown),
    }
}

/// The new cursor and the effect of one input line read at `cur`.
pub open spec fn line_step(ds: Seq<Directive>, cur: int, input: Seq<char>) -> (int, Effect) {
    apply_step(ds, cur, resolve(ds, input))
}

/// The cursor (a registry position holding a branch) and the registry.
pub struct ShellState {
    pub r: Registry,
    pub cur: usize,
}

impl ShellState {
    /// The cursor stands on a branch of the registry.
    pub open spec fn wf(&self) -> bool {
        is_branch_at(self.r@, self.cur as int)
    }

    /// The prompt text of the branch under the cursor.
    pub fn prompt(&self) -> (r: &str)
        requires
            self.wf(),
        ensures
            r@ == self.r@[self.cur as int]->Branch_0.display@,
    {
        match &self.r.known_directives[self.cur] {
            Directive::Branch(b) => b.get_display(),
            Directive::Meta(_) => "",
        }
    }

    /// Runs the behaviour `a` against the state; only the cursor may change.
    pub fn run_action(&mut self, a: MetaAction) -> (e: Effect)
        requires
            old(self).wf(),
        ensures
            final(self).wf(),
            final(self).r == old(self).r,
            (final(self).cur as int, e) == action_step(old(self).r@, old(self).cur as int, a),
    {
        match a {
            MetaAction::Exit => Effect::Terminate,
            MetaAction::Help => Effect::ListDirectives,
            MetaAction::Show => Effect::ShowRoutes,
            MetaAction::Up => {
                let parent = match &self.r.known_directives[self.cur] {
                    Directive::Branch(b) => b.parent,
                    Directive::Meta(_) => None,
                };
                match parent {
                    None => Effect::Terminate,
                    Some(p) => {
                        if p < self.r.known_directives.len() {
                            match &self.r.known_directives[p] {
                                Directive::Branch(_) => {
                                    self.cur = p;
                                    Effect::Proceed
                                },
                                Directive::Meta(_) => Effect::BrokenParent,
                            }
                        } else {
                            Effect::BrokenParent
                        }
                    },
                }
            },
        }
    }

    /// Applies one outcome of the registry: a move replaces the cursor, an
    /// action runs, an unknown command changes nothing.
    pub fn apply(&mut self, m: StateMessage) -> (e: Effect)
        requires
            old(self).wf(),
            message_valid(old(self).r@, m),
        ensures
            final(self).wf(),
            final(self).r == old(self).r,
            (final(self).cur as int, e) == apply_step(old(self).r@, old(self).cur as int, m),
    {
        match m {
            StateMessage::StateMove(i) => {
                self.cur = i;
                Effect::Proceed
            },
            StateMessage::RunFunction(i) => {
                let a = match &self.r.known_directives[i] {
                    Directive::Meta(c) => c.action,
                    Directive::Branch(_) => MetaAction::Exit,
                };
                self.run_action(a)
            },
            StateMessage::UnknownCommand => Effect::Unknown,
        }
    }

    /// Classifies one input line and applies its outcome.
    pub fn step(&mut self, input: &str) -> (e: Effect)
        requires
            old(self).wf(),
        ensures
            final(self).wf(),
            final(self).r == old(self).r,
            (final(self).cur as int, e) == line_step(old(self).r@, old(self).cur as int, input@),
    {
        let m = self.r.determine_activity(input);
        self.apply(m)
    }
}

/// The message that reports an unknown input line, quoting it verbatim.
pub fn unknown_message(input: &str) -> (r: String)
    ensures
        r@ == "Unknown command, `"@ + input@ + "`"@,
{
    let head = String::from_str("Unknown command, `");
    head.concat(input).concat("`")
}

/// Builds the shell: the operational branch at the root, the configuration
/// branch below it, and the actions `show`, `exit`, `up` and `?`. The cursor
/// starts on the operational branch.
pub fn initalize_shell() -> (s: ShellState)
    ensures
        s.wf(),
        s.cur == 0,
        s.r@.len() == 6,
        s.r@[0] is Branch,
        s.r@[0]->Branch_0.parent == None::<usize>,
        s.r@[0]->Branch_0.display@ == ">"@,
        s.r@[0].cmd() == "oper"@,
        s.r@[0].brief_text() == "Enter operational mode"@,
        s.r@[1] is Branch,
        s.r@[1]->Branch_0.parent == Some(0usize),
        s.r@[1]->Branch_0.display@ == "#"@,
        s.r@[1].cmd() == "conf"@,
        s.r@[1].brief_text() == "Enter global Configuration mode"@,
        s.r@[2] is Meta,
        s.r@[2]->Meta_0.action == MetaAction::Show,
        s.r@[2].cmd() == "show"@,
        s.r@[2].brief_text() == "Displays configuration information"@,
        s.r@[3] is Meta,
        s.r@[3]->Meta_0.action == MetaAction::Exit,
        s.r@[3].cmd() == "exit"@,
        s.r@[3].brief_text() == "Exits the current branch"@,
        s.r@[4] is Meta,
        s.r@[4]->Meta_0.action == MetaAction::Up,
        s.r@[4].cmd() == "up"@,
        s.r@[4].brief_text() == "Exits the current branch"@,
        s.r@[5] is Meta,
        s.r@[5]->Meta_0.action == MetaAction::Help,
        s.r@[5].cmd() == "?"@,
        s.r@[5].brief_text() == "Requests a copy of the description of all directives"@,
{
    let entry = ConfigBranch::new(None, ">", "oper", "Enter operational mode");
    let config = ConfigBranch::new(Some(0), "#", "conf", "Enter global Configuration mode");
    let show = MetaCommand::new("show", "Displays configuration information", MetaAction::Show);
    let exit = MetaCommand::new("exit", "Exits the current branch", MetaAction::Exit);
    let up = MetaCommand::new("up", "Exits the current branch", MetaAction::Up);
    let csh = MetaCommand::new(
        "?",
        "Requests a copy of the description of all directives",
        MetaAction::Help,
    );
    let mut r = Registry::new();
    r.add(Directive::Branch(entry));
    r.add(Directive::Branch(config));
    r.add(Directive::Meta(show));
    r.add(Directive::Meta(exit));
    r.add(Directive::Meta(up));
    r.add(Directive::Meta(csh));
    ShellState { r: r, cur: 0 }
}

} // verus!
