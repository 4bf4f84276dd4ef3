//! The slash commands and their recognizer.

use vstd::prelude::*;
use crate::screen::Screen;
use crate::text::{ascii_lower, ascii_upper, lowercase, same_text, uppercase};

verus! {

/// The commands of a session, in the order in which they are declared.
#[derive(Copy, Clone, Debug, PartialEq, Eq, Structural)]
pub enum Command {
    Clear,
    Exit,
    Help,
    Menu,
    Quit,
}

impl Command {
    /// The name under which a command is listed and suggested.
    pub open spec fn canonical(self) -> Seq<char> {
        match self {
            Command::Clear => "clear"@,
            Command::Exit => "exit"@,
            Command::Help => "help"@,
            Command::Menu => "menu"@,
            Command::Quit => "quit"@,
        }
    }

    /// The other names that a command answers to.
    pub open spec fn aliases(self) -> Seq<Seq<char>> {
        match self {
            Command::Help => seq!["h"@, "?"@],
            Command::Quit => seq!["q"@],
            _ => Seq::empty(),
        }
    }

    /// Whether `token` is the canonical name of the command or one of its aliases.
    pub open spec fn answers_to(self, token: Seq<char>) -> bool {
        token == self.canonical() || self.aliases().contains(token)
    }

    /// The canonical name.
    pub fn name(self) -> (r: &'static str)
        ensures
            r@ == self.canonical(),
    {
        match self {
            Command::Clear => "clear",
            Command::Exit => "exit",
            Command::Help => "help",
            Command::Menu => "menu",
            Command::Quit => "quit",
        }
    }

    /// The aliases, in the order in which they are declared.
    pub fn alias_list(self) -> (r: Vec<&'static str>)
        ensures
            r.deep_view() == self.aliases(),
    {
        let mut r: Vec<&'static str> = Vec::new();
        match self {
            Command::Help => {
                r.push("h");
                r.push("?");
            },
            Command::Quit => {
                r.push("q");
            },
            _ => {},
        }
        assert(r.deep_view() =~= self.aliases());
        r
    }

    /// Whether the command answers to `token`.
    pub fn matches(self, token: &str) -> (r: bool)
        ensures
            r == self.answers_to(token@),
    {
        if same_text(token, self.name()) {
            return true;
        }
        let aliases = self.alias_list();
        let mut i: usize = 0;
        while i < aliases.len()
            invariant
                i <= aliases.len(),
                aliases.deep_view() == self.aliases(),
                forall|j: int| 0 <= j < i ==> self.aliases()[j] != token@,
            decreases aliases.len() - i,
        {
            assert(aliases.deep_view()[i as int] == aliases[i as int]@);
            if same_text(token, aliases[i]) {
                return true;
            }
            i = i + 1;
        }
        false
    }

    /// The fixed set of commands, in declaration order.
    pub fn all() -> (r: Vec<Command>)
        ensures
            r@ == command_set(),
    {
        let r = vec![Command::Clear, Command::Exit, Command::Help, Command::Menu, Command::Quit];
        assert(r@ =~= command_set());
        r
    }

    /// The canonical names, in declaration order.
    pub fn names() -> (r: Vec<&'static str>)
        ensures
            r.deep_view() == canonical_names(),
    {
        let all = Command::all();
        let mut r: Vec<&'static str> = Vec::new();
        let mut i: usize = 0;
        while i < all.len()
            invariant
                i <= all.len(),
                all@ == command_set(),
                r.len() == i,
                forall|j: int| 0 <= j < i ==> (#[trigger] r[j])@ == command_set()[j].canonical(),
            decreases all.len() - i,
        {
            r.push(all[i].name());
            i = i + 1;
        }
        assert(r.deep_view() =~= canonical_names());
        r
    }
}

/// The fixed set of commands, in declaration order.
pub open spec fn command_set() -> Seq<Command> {
    seq![Command::Clear, Command::Exit, Command::Help, Command::Menu, Command::Quit]
}

/// The canonical names of the fixed set, in declaration order.
pub open spec fn canonical_names() -> Seq<Seq<char>> {
    Seq::new(command_set().len(), |i: int| command_set()[i].canonical())
}

/// The command that answers to `token`, if there is one.
pub open spec fn resolve(token: Seq<char>) -> Option<Command> {
    if Command::Clear.answers_to(token) {
        Some(Command::Clear)
    } else if Command::Exit.answers_to(token) {
        Some(Command::Exit)
    } else if Command::Help.answers_to(token) {
        Some(Command::Help)
    } else if Command::Menu.answers_to(token) {
        Some(Command::Menu)
    } else if Command::Quit.answers_to(token) {
        Some(Command::Quit)
    } else {
        None
    }
}

/// A line is a command line when its first character is a slash.
pub open spec fn is_command_line(line: Seq<char>) -> bool {
    line.len() > 0 && line[0] == '/'
}

/// The token of a command line: what follows the slash, in small letters.
pub open spec fn token_of(line: Seq<char>) -> Seq<char> {
    ascii_lower(line.skip(1))
}

/// A command line and what the recognizer made of it.
pub struct Commands {
    command: Option<Command>,
    raw_line: String,
    raw_command: String,
}

/// What a `Commands` holds, as mathematical values.
pub struct CommandsView {
    /// The command that the token resolved to, if any.
    pub command: Option<Command>,
    /// The line as it was typed, with its slash.
    pub raw_line: Seq<char>,
    /// The token: the line without its slash, in small letters.
    pub raw_command: Seq<char>,
}

impl View for Commands {
    type V = CommandsView;

    closed spec fn view(&self) -> CommandsView {
        CommandsView {
            command: self.command,
            raw_line: self.raw_line@,
            raw_command: self.raw_command@,
        }
    }
}

/// What the recognizer makes of a command line.
pub open spec fn recognize(line: Seq<char>) -> CommandsView {
    CommandsView {
        command: resolve(token_of(line)),
        raw_line: line,
        raw_command: token_of(line),
    }
}

/// The text that committing a command line puts in the status bar: the name of the command
/// in capitals; a lone slash for a line that is only a slash; for any other line the notice
/// that it matched no command.
pub open spec fn commit_status(c: CommandsView) -> Seq<char> {
    match c.command {
        Some(command) => ascii_upper(command.canonical()),
        None => if c.raw_command.len() == 0 {
            "/"@
        } else {
            "Unmatched command "@ + c.raw_line
        },
    }
}

/// How far a name is from a query: the prefix edit distance of the `strprox` crate, which is
/// the least number of single-character edits that turn the query into a prefix of the
/// name.
pub uninterp spec fn prefix_distance(query: Seq<char>, name: Seq<char>) -> nat;

/// The distances of the canonical names from a token, in declaration order.
pub open spec fn name_distances(token: Seq<char>) -> Seq<nat> {
    Seq::new(command_set().len(), |i: int| prefix_distance(token, command_set()[i].canonical()))
}

/// Whether `place` is the place of the least number of a list, and of the first of them
/// where several are least.
pub open spec fn is_first_least(distances: Seq<nat>, place: int) -> bool {
    &&& 0 <= place < distances.len()
    &&& forall|j: int| 0 <= j < distances.len() ==> distances[place] <= #[trigger] distances[j]
    &&& forall|j: int| 0 <= j < place ==> distances[place] < #[trigger] distances[j]
}

/// The place of the first least number of a list that is not empty.
pub open spec fn first_least(distances: Seq<nat>) -> int {
    choose|place: int| is_first_least(distances, place)
}

/// The command that is suggested for a token that did not resolve: the one whose canonical
/// name is closest to the token, and among equally close ones the one declared first.
pub open spec fn best_match(token: Seq<char>) -> Command {
    command_set()[first_least(name_distances(token))]
}

/// The text that the status bar shows while a command line is typed, and the name that is
/// suggested. A resolved command is shown by its name, which is the name suggested. A
/// token that did not resolve is shown as a slash and the canonical name of its best match,
/// which is the name suggested. A lone slash is shown as it is, and no name is suggested.
pub open spec fn suggestion(c: CommandsView) -> (Seq<char>, Option<Seq<char>>) {
    match c.command {
        Some(command) => (command.canonical(), Some(command.canonical())),
        None => if c.raw_command.len() > 0 {
            (
                "/"@ + best_match(c.raw_command).canonical(),
                Some(best_match(c.raw_command).canonical()),
            )
        } else {
            ("/"@, None)
        },
    }
}

/// The numbers of a list as mathematical numbers.
pub open spec fn as_nats(numbers: Seq<usize>) -> Seq<nat> {
    Seq::new(numbers.len(), |i: int| numbers[i] as nat)
}

/// The names that each command answers to, written out.
proof fn lemma_answers_to(token: Seq<char>)
    ensures
        Command::Clear.answers_to(token) <==> token == "clear"@,
        Command::Exit.answers_to(token) <==> token == "exit"@,
        Command::Help.answers_to(token) <==> (token == "help"@ || token == "h"@ || token == "?"@),
        Command::Menu.answers_to(token) <==> token == "menu"@,
        Command::Quit.answers_to(token) <==> (token == "quit"@ || token == "q"@),
{
    assert(Command::Help.aliases()[0] == "h"@);
    assert(Command::Help.aliases()[1] == "?"@);
    assert(Command::Quit.aliases()[0] == "q"@);
}

/// The length and the first character of each name: no two names agree in both.
proof fn lemma_names_differ()
    ensures
        "clear"@.len() == 5,
        "exit"@.len() == 4 && "exit"@[0] == 'e',
        "help"@.len() == 4 && "help"@[0] == 'h',
        "menu"@.len() == 4 && "menu"@[0] == 'm',
        "quit"@.len() == 4 && "quit"@[0] == 'q',
        "h"@.len() == 1 && "h"@[0] == 'h',
        "?"@.len() == 1 && "?"@[0] == '?',
        "q"@.len() == 1 && "q"@[0] == 'q',
{
    reveal_strlit("clear");
    reveal_strlit("exit");
    reveal_strlit("help");
    reveal_strlit("menu");
    reveal_strlit("quit");
    reveal_strlit("h");
    reveal_strlit("?");
    reveal_strlit("q");
}

/// No two commands answer to the same token: a token resolves to a command exactly when
/// the command answers to it.
pub proof fn lemma_resolve_answers(token: Seq<char>, command: Command)
    ensures
        resolve(token) == Some(command) <==> command.answers_to(token),
{
    lemma_answers_to(token);
    lemma_names_differ();
}

/// Every canonical name and every alias is written in small letters.
pub proof fn lemma_names_are_lower(command: Command, name: Seq<char>)
    requires
        command.answers_to(name),
    ensures
        ascii_lower(name) == name,
{
    reveal_strlit("clear");
    reveal_strlit("exit");
    reveal_strlit("help");
    reveal_strlit("menu");
    reveal_strlit("quit");
    reveal_strlit("h");
    reveal_strlit("?");
    reveal_strlit("q");
    if name != command.canonical() {
        let i = choose|i: int| 0 <= i < command.aliases().len() && command.aliases()[i] == name;
        assert(name == command.aliases()[i]);
    }
    assert(ascii_lower(name) =~= name);
}

/// Committing a slash followed by the canonical name of a command, or by one of its
/// aliases, resolves to that command and puts its canonical name, in capitals, in the
/// status bar.
pub proof fn lemma_commit_by_any_name(command: Command, name: Seq<char>)
    requires
        command.answers_to(name),
    ensures
        is_command_line(seq!['/'] + name),
        recognize(seq!['/'] + name).command == Some(command),
        commit_status(recognize(seq!['/'] + name)) == ascii_upper(command.canonical()),
{
    let line = seq!['/'] + name;
    assert(line.skip(1) =~= name);
    lemma_names_are_lower(command, name);
    lemma_resolve_answers(name, command);
}

/// A list has no more than one first least place.
pub proof fn lemma_first_least_unique(distances: Seq<nat>, one: int, other: int)
    requires
        is_first_least(distances, one),
        is_first_least(distances, other),
    ensures
        one == other,
{
    if one < other {
        assert(distances[other] < distances[one]);
    } else if other < one {
        assert(distances[one] < distances[other]);
    }
}

/// A list that is not empty has a first least place, and `first_least` is that place.
pub proof fn lemma_first_least(distances: Seq<nat>)
    requires
        distances.len() > 0,
    ensures
        is_first_least(distances, first_least(distances)),
    decreases distances.len(),
{
    if distances.len() == 1 {
        assert(is_first_least(distances, 0));
    } else {
        let shorter = distances.drop_last();
        lemma_first_least(shorter);
        let before = first_least(shorter);
        assert forall|j: int| 0 <= j < shorter.len() implies shorter[j] == distances[j] by {}
        if distances.last() < distances[before] {
            assert(is_first_least(distances, distances.len() - 1));
        } else {
            assert(is_first_least(distances, before));
        }
    }
}

/// The best match of a token is the single best of the fixed set: no canonical name is
/// closer to the token than its name, and the name of every command that is declared before
/// it is farther from the token.
pub proof fn lemma_best_match(token: Seq<char>)
    ensures
        0 <= first_least(name_distances(token)) < command_set().len(),
        forall|i: int|
            0 <= i < command_set().len() ==> prefix_distance(token, best_match(token).canonical())
                <= prefix_distance(token, (#[trigger] command_set()[i]).canonical()),
        forall|i: int|
            0 <= i < first_least(name_distances(token)) ==> prefix_distance(
                token,
                best_match(token).canonical(),
            ) < prefix_distance(token, (#[trigger] command_set()[i]).canonical()),
{
    let distances = name_distances(token);
    lemma_first_least(distances);
    let best = first_least(distances);
    assert(distances[best] == prefix_distance(token, command_set()[best].canonical()));
    assert forall|i: int| 0 <= i < command_set().len() implies prefix_distance(
        token,
        best_match(token).canonical(),
    ) <= prefix_distance(token, (#[trigger] command_set()[i]).canonical()) by {
        assert(distances[best] <= distances[i]);
    }
    assert forall|i: int| 0 <= i < best implies prefix_distance(
        token,
        best_match(token).canonical(),
    ) < prefix_distance(token, (#[trigger] command_set()[i]).canonical()) by {
        assert(distances[best] < distances[i]);
    }
}

/// `strprox::levenshtein::prefix_edit_distance` computes the prefix edit distance from its
/// first argument, the query, to its second, the name. It reads the two texts and nothing
/// else, and the contract says no more than that its result is this distance.
#[verifier::external_body]
fn distance_between(query: &str, name: &str) -> (distance: usize)
    ensures
        distance == prefix_distance(query@, name@),
{
    strprox::levenshtein::prefix_edit_distance(query, name)
}

/// The place of the least of `distances`, and of the first of them where several are
/// least. An empty list has none.
pub fn closest(distances: &Vec<usize>) -> (r: Option<usize>)
    ensures
        r is Some <==> distances.len() > 0,
        r matches Some(place) ==> is_first_least(as_nats(distances@), place as int) && place
            == first_least(as_nats(distances@)),
{
    if distances.len() == 0 {
        return None;
    }
    let ghost all = as_nats(distances@);
    let mut place: usize = 0;
    let mut i: usize = 1;
    while i < distances.len()
        invariant
            1 <= i <= distances.len(),
            all == as_nats(distances@),
            is_first_least(all.take(i as int), place as int),
        decreases distances.len() - i,
    {
        if distances[i] < distances[place] {
            place = i;
        }
        i = i + 1;
        assert(is_first_least(all.take(i as int), place as int));
    }
    assert(all.take(distances.len() as int) =~= all);
    proof {
        lemma_first_least(all);
        lemma_first_least_unique(all, place as int, first_least(all));
    }
    Some(place)
}

impl Commands {
    /// Recognizes a command line: takes the token after its slash, in small letters, and
    /// resolves it to the command that answers to it, if there is one.
    pub fn new(line: String) -> (c: Commands)
        requires
            is_command_line(line@),
        ensures
            c@ == recognize(line@),
    {
        let n: usize = line.as_str().unicode_len();
        let raw_command = lowercase(line.as_str().substring_char(1, n));
        let command = Commands::to_command(raw_command.as_str());
        Commands { command, raw_line: line, raw_command }
    }

    /// The command that answers to `raw`, if there is one.
    pub fn to_command(raw: &str) -> (r: Option<Command>)
        ensures
            r == resolve(raw@),
    {
        let all = Command::all();
        let mut i: usize = 0;
        while i < all.len()
            invariant
                i <= all.len(),
                all@ == command_set(),
                forall|j: int| 0 <= j < i ==> !(#[trigger] command_set()[j]).answers_to(raw@),
            decreases all.len() - i,
        {
            if all[i].matches(raw) {
                return Some(all[i]);
            }
            i = i + 1;
        }
        assert(!command_set()[0].answers_to(raw@));
        assert(!command_set()[1].answers_to(raw@));
        assert(!command_set()[2].answers_to(raw@));
        assert(!command_set()[3].answers_to(raw@));
        assert(!command_set()[4].answers_to(raw@));
        None
    }

    /// The command that the line resolved to, if any.
    pub fn command(&self) -> (r: Option<Command>)
        ensures
            r == self@.command,
    {
        self.command
    }

    /// The line as it was typed.
    pub fn raw_line(&self) -> (r: &str)
        ensures
            r@ == self@.raw_line,
    {
        self.raw_line.as_str()
    }

    /// The token of the line.
    pub fn raw_command(&self) -> (r: &str)
        ensures
            r@ == self@.raw_command,
    {
        self.raw_command.as_str()
    }

    /// Commits the line: puts in the status bar of `screen` the name of the resolved
    /// command in capitals, or a lone slash for a line that is only a slash, or else the
    /// notice that the line matched no command. A name that is merely close to the token
    /// is not taken for the command.
    pub fn run(&mut self, screen: &mut Screen)
        ensures
            final(self)@ == old(self)@,
            final(screen)@ == old(screen)@.with_status(commit_status(old(self)@)),
    {
        match self.command {
            Some(command) => {
                let shown = uppercase(command.name());
                screen.set_status(shown.as_str());
            },
            None => {
                if !self.raw_command.as_str().is_empty() {
                    let notice = String::from_str("Unmatched command ").concat(
                        self.raw_line.as_str(),
                    );
                    screen.set_status(notice.as_str());
                } else {
                    screen.set_status("/");
                }
            },
        }
    }

    /// The command whose canonical name is closest to `token`, and among equally close
    /// ones the one declared first.
    pub fn best_match(token: &str) -> (r: Command)
        ensures
            r == best_match(token@),
    {
        let names = Command::names();
        assert(names.deep_view().len() == command_set().len());
        let mut distances: Vec<usize> = Vec::new();
        let mut i: usize = 0;
        while i < names.len()
            invariant
                i <= names.len(),
                names.len() == command_set().len(),
                names.deep_view() == canonical_names(),
                distances.len() == i,
                forall|j: int|
                    0 <= j < i ==> (#[trigger] distances[j]) as nat == name_distances(token@)[j],
            decreases names.len() - i,
        {
            assert(names[i as int]@ == names.deep_view()[i as int]);
            assert(names[i as int]@ == command_set()[i as int].canonical());
            distances.push(distance_between(token, names[i]));
            i = i + 1;
        }
        assert(as_nats(distances@) =~= name_distances(token@));
        proof {
            lemma_first_least(name_distances(token@));
        }
        let all = Command::all();
        match closest(&distances) {
            Some(place) => all[place],
            None => unreached(),
        }
    }

    /// Shows a suggestion for the line in the status bar of `screen` and returns the
    /// suggested name: for a resolved command its canonical name; for a token that did not
    /// resolve the canonical name of its best match, shown behind a slash; for a lone slash
    /// the slash, and no name.
    pub fn suggest(&self, screen: &mut Screen) -> (r: Option<String>)
        ensures
            final(screen)@ == old(screen)@.with_status(suggestion(self@).0),
            r.deep_view() == suggestion(self@).1,
    {
        match self.command {
            Some(command) => {
                screen.set_status(command.name());
                Some(String::from_str(command.name()))
            },
            None => {
                if !self.raw_command.as_str().is_empty() {
                    let name = Commands::best_match(self.raw_command.as_str()).name();
                    let shown = String::from_str("/").concat(name);
                    screen.set_status(shown.as_str());
                    Some(String::from_str(name))
                } else {
                    screen.set_status("/");
                    None
                }
            },
        }
    }
}

} // verus!
