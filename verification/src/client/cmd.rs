use vstd::prelude::*;
use crate::client::error::{Error, Result};
use crate::client::input::TextInput;
use crate::client::target::{Target, TargetType, Surroundings, find_spec, first_route, first_thing};
use crate::action::{Action, BaseAction};
use crate::action::go::GoAction;
use crate::text::{str_equal, string_of};

verus! {

/// The usage text of the `go` command.
pub open spec fn go_usage() -> Seq<char> {
    "Usage: go <destination>\n    Moves to the specified route or area.\n\n    <destination> := The name or key of a nearby route, endpoint, or adjoining area."@
}

/// The usage text of the `look` command.
pub open spec fn look_usage() -> Seq<char> {
    "Usage: look [subject]\n    Looks at the specified subject. If omitted, looks at the current area. \n\n    [subject] := The name or key of a nearby thing or route."@
}

/// A command, with its raw arguments.
#[derive(Debug, PartialEq, Eq)]
pub enum Cmd {
    Go(GoCmd),
    Look(LookCmd),
}

/// What parsing a command line gives, as plain values.
pub enum CmdOutcome {
    Go(Seq<char>),
    Look(Option<Seq<char>>),
    /// The command's usage text was asked for, or it got the wrong number of arguments.
    Usage(Seq<char>),
    Unknown(Seq<char>),
    NoCommand(Seq<char>),
    /// Any other error.
    Other,
}

/// Whether an argument asks for help: `-h` or `--help`.
pub open spec fn is_help(arg: Seq<char>) -> bool {
    arg == "-h"@ || arg == "--help"@
}

/// Whether any argument after the command's name asks for help.
pub open spec fn asks_help(args: Seq<Seq<char>>) -> bool {
    exists|i: int| 1 <= i < args.len() && is_help(#[trigger] args[i])
}

/// Parsing of the arguments `args` of the command line `text`: the first argument names the command.
/// `go` takes exactly one destination; `look` takes at most one subject; either reports its usage when
/// it is asked for help (`-h` or `--help` among its arguments) or given the wrong number of arguments.
pub open spec fn cmd_spec(text: Seq<char>, args: Seq<Seq<char>>) -> CmdOutcome {
    if args.len() == 0 {
        CmdOutcome::NoCommand(text)
    } else if args[0] == "go"@ {
        if asks_help(args) {
            CmdOutcome::Usage(go_usage())
        } else if args.len() != 2 {
            CmdOutcome::Usage(go_usage())
        } else {
            CmdOutcome::Go(args[1])
        }
    } else if args[0] == "look"@ {
        if asks_help(args) {
            CmdOutcome::Usage(look_usage())
        } else if args.len() > 2 {
            CmdOutcome::Usage(look_usage())
        } else if args.len() == 2 {
            CmdOutcome::Look(Some(args[1]))
        } else {
            CmdOutcome::Look(None)
        }
    } else {
        CmdOutcome::Unknown(text)
    }
}

/// Whether a command's target is still to be found: a freshly parsed command is not processed yet.
pub open spec fn cmd_unprocessed(c: Cmd) -> bool {
    match c {
        Cmd::Go(g) => g.spec_processed() is None,
        Cmd::Look(l) => l.processed is None,
    }
}

/// The plain outcome of a parsed command.
pub open spec fn cmd_outcome(r: Result<Cmd>) -> CmdOutcome {
    match r {
        Ok(Cmd::Go(go)) => CmdOutcome::Go(go.spec_destination()),
        Ok(Cmd::Look(look)) => CmdOutcome::Look(
            match look.subject {
                Some(s) => Some(s@),
                None => None,
            },
        ),
        Err(Error::CommandUsage { usage }) => CmdOutcome::Usage(usage@),
        Err(Error::UnknownCommand(t)) => CmdOutcome::Unknown(t@),
        Err(Error::GenericInputParsing(t)) => CmdOutcome::NoCommand(t@),
        Err(_) => CmdOutcome::Other,
    }
}

impl Cmd {
    pub fn parse(input: &TextInput) -> (r: Result<Self>)
        ensures
            cmd_outcome(r) == cmd_spec(input.spec_text(), input.spec_args()),
            r matches Ok(c) ==> cmd_unprocessed(c),
    {
        let args = input.args();
        if args.len() == 0 {
            return Err(Error::GenericInputParsing(input.text().to_owned()));
        }
        let cmdname = args[0].as_str();
        if str_equal(cmdname, GoCmd::name()) {
            match GoCmd::parse(input) {
                Ok(c) => Ok(Cmd::Go(c)),
                Err(e) => Err(e),
            }
        } else if str_equal(cmdname, LookCmd::name()) {
            match LookCmd::parse(input) {
                Ok(c) => Ok(Cmd::Look(c)),
                Err(e) => Err(e),
            }
        } else {
            Err(Error::UnknownCommand(input.text().to_owned()))
        }
    }

    /// Processes the raw values of the command into its final form, against what the viewer perceives.
    pub fn process(self, surroundings: &Surroundings) -> (r: Result<Self>)
        ensures
            cmd_processed(self, *surroundings, r),
    {
        match self {
            Cmd::Go(mut cmd) => match cmd.process(surroundings) {
                Ok(()) => Ok(Cmd::Go(cmd)),
                Err(e) => Err(e),
            },
            Cmd::Look(mut cmd) => match cmd.process(surroundings) {
                Ok(()) => Ok(Cmd::Look(cmd)),
                Err(e) => Err(e),
            },
        }
    }

    pub fn name(&self) -> (r: &'static str)
        ensures
            r@ == (match self {
                Cmd::Go(_) => "go"@,
                Cmd::Look(_) => "look"@,
            }),
    {
        match self {
            Cmd::Go(_) => GoCmd::name(),
            Cmd::Look(_) => LookCmd::name(),
        }
    }
}

/// Standard methods for a CLI command.
pub trait Cli: Sized {
    type ProcessedCmdType: Sized;

    spec fn spec_name() -> Seq<char>;

    spec fn spec_usage() -> Seq<char>;

    spec fn spec_processed(&self) -> Option<Self::ProcessedCmdType>;

    /// The name of the command.
    fn name() -> (r: &'static str)
        ensures
            r@ == Self::spec_name(),
    ;

    /// The usage / help string.
    fn usage() -> (r: &'static str)
        ensures
            r@ == Self::spec_usage(),
    ;

    /// Parses command-line input into a command struct.
    fn parse(input: &TextInput) -> Result<Self>;

    /// Resolves the command's arguments against what the viewer perceives.
    fn process(&mut self, surroundings: &Surroundings) -> (r: Result<()>)
        ensures
            r is Ok ==> final(self).spec_processed() is Some,
    ;

    fn processed(&self) -> (r: Option<&Self::ProcessedCmdType>)
        ensures
            match r {
                Some(p) => self.spec_processed() == Some(*p),
                None => self.spec_processed() is None,
            },
    ;

    fn is_processed(&self) -> (r: bool)
        ensures
            r == self.spec_processed() is Some,
    {
        self.processed().is_some()
    }

    /// Checks whether "-h" or "--help" was specified among the arguments and returns a CommandUsage error if so.
    fn check_help(input: &TextInput) -> (r: Result<()>)
        ensures
            match r {
                Ok(()) => !asks_help(input.spec_args()),
                Err(e) => asks_help(input.spec_args())
                    && (e matches Error::CommandUsage { usage } && usage@ == Self::spec_usage()),
            },
    {
        let args = input.args();
        proof {
            reveal_strlit("-h");
            reveal_strlit("--help");
        }
        let mut i: usize = 1;
        while i < args.len()
            invariant
                1 <= i,
                args@.len() == input.spec_args().len(),
                forall|k: int| 0 <= k < args@.len() ==> #[trigger] args@[k]@ == input.spec_args()[k],
                forall|k: int| 1 <= k < i && k < args@.len() ==> !is_help(#[trigger] input.spec_args()[k]),
            decreases args.len() - i,
        {
            let arg = args[i].as_str();
            if str_equal(arg, "-h") || str_equal(arg, "--help") {
                assert(is_help(input.spec_args()[i as int]));
                return Err(Error::CommandUsage { usage: Self::usage() });
            }
            i = i + 1;
        }
        Ok(())
    }

    /// Ensures that the number of arguments matches the specified size. Returns a CommandUsage error otherwise.
    fn check_num_args(input: &TextInput, num: usize) -> (r: Result<()>)
        ensures
            match r {
                Ok(()) => input.spec_args().len() == num + 1,
                Err(e) => input.spec_args().len() != num + 1
                    && (e matches Error::CommandUsage { usage } && usage@ == Self::spec_usage()),
            },
    {
        let n = input.args().len();
        if n == 0 || n - 1 != num {
            Err(Error::CommandUsage { usage: Self::usage() })
        } else {
            Ok(())
        }
    }

    /// Ensures that there are at most `max_num` arguments. Returns a CommandUsage error otherwise.
    fn check_num_args_max(input: &TextInput, max_num: usize) -> (r: Result<()>)
        ensures
            match r {
                Ok(()) => input.spec_args().len() <= max_num + 1,
                Err(e) => input.spec_args().len() > max_num + 1
                    && (e matches Error::CommandUsage { usage } && usage@ == Self::spec_usage()),
            },
    {
        let n = input.args().len();
        if n > 0 && n - 1 > max_num {
            Err(Error::CommandUsage { usage: Self::usage() })
        } else {
            Ok(())
        }
    }
}

/// `go <destination>`: moves to the specified route or area.
#[derive(Debug, PartialEq, Eq)]
pub struct GoCmd {
    destination: String,
    processed: Option<ProcessedGoCmd>,
}

#[derive(Debug, PartialEq, Eq)]
pub struct ProcessedGoCmd {
    pub destination: Target,
}

impl GoCmd {
    pub closed spec fn spec_destination(self) -> Seq<char> {
        self.destination@
    }

    pub closed spec fn spec_processed(self) -> Option<ProcessedGoCmd> {
        self.processed
    }

    pub fn new(destination: String) -> (r: Self)
        ensures
            r.spec_destination() == destination@,
            r.spec_processed() is None,
    {
        Self { destination, processed: None }
    }

    pub fn destination(&self) -> (r: &str)
        ensures
            r@ == self.spec_destination(),
    {
        self.destination.as_str()
    }
}

impl Cli for GoCmd {
    type ProcessedCmdType = ProcessedGoCmd;

    open spec fn spec_name() -> Seq<char> {
        "go"@
    }

    open spec fn spec_usage() -> Seq<char> {
        go_usage()
    }

    closed spec fn spec_processed(&self) -> Option<ProcessedGoCmd> {
        self.processed
    }

    fn name() -> (r: &'static str) {
        "go"
    }

    fn usage() -> (r: &'static str) {
        "Usage: go <destination>\n    Moves to the specified route or area.\n\n    <destination> := The name or key of a nearby route, endpoint, or adjoining area."
    }

    fn parse(input: &TextInput) -> (r: Result<Self>)
        ensures
            match r {
                Ok(go) => input.spec_args().len() == 2 && !asks_help(input.spec_args())
                    && go.spec_destination() == input.spec_args()[1] && go.spec_processed() is None,
                Err(e) => (input.spec_args().len() != 2 || asks_help(input.spec_args()))
                    && (e matches Error::CommandUsage { usage } && usage@ == go_usage()),
            },
    {
        Self::check_help(input)?;
        Self::check_num_args(input, 1)?;
        let destination = input.args()[1].clone();
        Ok(Self::new(destination))
    }

    /// The destination must name exactly one route that leaves the viewer's area.
    fn process(&mut self, surroundings: &Surroundings) -> (r: Result<()>)
        ensures
            final(self).spec_destination() == old(self).spec_destination(),
            match r {
                Ok(()) => final(self).spec_processed() matches Some(p)
                    && find_spec(old(self).spec_destination(), *surroundings, seq![TargetType::Route], "Destination", Ok(p.destination)),
                Err(e) => final(self).spec_processed() == old(self).spec_processed()
                    && find_spec(old(self).spec_destination(), *surroundings, seq![TargetType::Route], "Destination", Err(e)),
            },
    {
        let types = vec![TargetType::Route];
        assert(types@ =~= seq![TargetType::Route]);
        match Target::find(self.destination.as_str(), surroundings, types.as_slice(), "Destination") {
            Ok(target) => {
                self.processed = Some(ProcessedGoCmd { destination: target });
                Ok(())
            },
            Err(e) => Err(e),
        }
    }

    fn processed(&self) -> (r: Option<&ProcessedGoCmd>) {
        self.processed.as_ref()
    }
}

/// `look [subject]`: looks at the specified subject, or at the current area.
#[derive(Debug, PartialEq, Eq)]
pub struct LookCmd {
    pub subject: Option<String>,
    pub processed: Option<ProcessedLookCmd>,
}

#[derive(Debug, PartialEq, Eq)]
pub struct ProcessedLookCmd {
    pub subject: Target,
}

impl LookCmd {
    pub fn new(subject: Option<String>) -> (r: Self)
        ensures
            r.subject == subject,
            r.processed is None,
    {
        Self { subject, processed: None }
    }
}

impl Cli for LookCmd {
    type ProcessedCmdType = ProcessedLookCmd;

    open spec fn spec_name() -> Seq<char> {
        "look"@
    }

    open spec fn spec_usage() -> Seq<char> {
        look_usage()
    }

    open spec fn spec_processed(&self) -> Option<ProcessedLookCmd> {
        self.processed
    }

    fn name() -> (r: &'static str) {
        "look"
    }

    fn usage() -> (r: &'static str) {
        "Usage: look [subject]\n    Looks at the specified subject. If omitted, looks at the current area. \n\n    [subject] := The name or key of a nearby thing or route."
    }

    fn parse(input: &TextInput) -> (r: Result<Self>)
        ensures
            match r {
                Ok(look) => !asks_help(input.spec_args())
                    && input.spec_args().len() <= 2 && look.processed is None
                    && (match look.subject {
                        Some(s) => input.spec_args().len() == 2 && s@ == input.spec_args()[1],
                        None => input.spec_args().len() < 2,
                    }),
                Err(e) => (asks_help(input.spec_args()) || input.spec_args().len() > 2)
                    && (e matches Error::CommandUsage { usage } && usage@ == look_usage()),
            },
    {
        Self::check_help(input)?;
        Self::check_num_args_max(input, 1)?;
        let args = input.args();
        let subject = if args.len() > 1 { Some(args[1].clone()) } else { None };
        Ok(Self::new(subject))
    }

    /// A subject must name exactly one nearby target of any kind; without one, the subject is the area.
    fn process(&mut self, surroundings: &Surroundings) -> (r: Result<()>)
        ensures
            final(self).subject == old(self).subject,
            match old(self).subject {
                Some(subject) => match r {
                    Ok(()) => final(self).processed matches Some(p)
                        && find_spec(subject@, *surroundings, all_target_types(), "Destination", Ok(p.subject)),
                    Err(e) => final(self).processed == old(self).processed
                        && find_spec(subject@, *surroundings, all_target_types(), "Destination", Err(e)),
                },
                None => r is Ok && final(self).processed == Some(ProcessedLookCmd { subject: Target::Area(surroundings.area_uid) }),
            },
    {
        let subject = match &self.subject {
            Some(subject) => {
                let all = TargetType::all();
                match Target::find(subject.as_str(), surroundings, all.as_slice(), "Destination") {
                    Ok(target) => target,
                    Err(e) => return Err(e),
                }
            },
            None => Target::Area(surroundings.area_uid),
        };
        self.processed = Some(ProcessedLookCmd { subject });
        Ok(())
    }

    fn processed(&self) -> (r: Option<&ProcessedLookCmd>) {
        self.processed.as_ref()
    }
}

/// How processing the command `before` against `s` turns out: the same command with its target found as
/// `Target::find` finds it (a route for `go`; any kind for `look`, whose missing subject is the area), or
/// the error that the search gives.
pub open spec fn cmd_processed(before: Cmd, s: Surroundings, after: Result<Cmd>) -> bool {
    match before {
        Cmd::Go(g) => match after {
            Ok(Cmd::Go(g2)) => g2.spec_destination() == g.spec_destination()
                && (g2.spec_processed() matches Some(p)
                && find_spec(g.spec_destination(), s, seq![TargetType::Route], "Destination", Ok(p.destination))),
            Err(e) => find_spec(g.spec_destination(), s, seq![TargetType::Route], "Destination", Err(e)),
            _ => false,
        },
        Cmd::Look(l) => match after {
            Ok(Cmd::Look(l2)) => l2.subject == l.subject && (match l.subject {
                Some(subject) => l2.processed matches Some(p)
                    && find_spec(subject@, s, all_target_types(), "Destination", Ok(p.subject)),
                None => l2.processed == Some(ProcessedLookCmd { subject: Target::Area(s.area_uid) }),
            }),
            Err(e) => l.subject matches Some(subject)
                && find_spec(subject@, s, all_target_types(), "Destination", Err(e)),
            _ => false,
        },
    }
}

/// Every kind of target, in the order areas, routes, things.
pub open spec fn all_target_types() -> Seq<TargetType> {
    seq![TargetType::Area, TargetType::Route, TargetType::Thing]
}

/// Whether the lines that looking at `t` shows can be had: its description must be known.
pub open spec fn look_describable(s: Surroundings, t: Target) -> bool {
    match t {
        Target::Area(_) => s.area_description is Some,
        Target::Route(uid) => exists|k: int| first_route(s.routes@, uid, k) && #[trigger] s.routes@[k].end_description is Some,
        Target::Thing(uid) => exists|k: int| first_thing(s.occupants@, uid, k) && #[trigger] s.occupants@[k].description is Some,
        Target::Empty => false,
    }
}

/// The lines that looking at `t` shows: the name and the description of the area, of the route's end in
/// the area, or of the thing.
pub open spec fn look_lines(s: Surroundings, t: Target) -> Seq<Seq<char>> {
    match t {
        Target::Area(_) => seq![s.area_name@, s.area_description->Some_0@],
        Target::Route(uid) => {
            let k = choose|k: int| first_route(s.routes@, uid, k) && #[trigger] s.routes@[k].end_description is Some;
            seq![s.routes@[k].end_name@, s.routes@[k].end_description->Some_0@]
        },
        Target::Thing(uid) => {
            let k = choose|k: int| first_thing(s.occupants@, uid, k) && #[trigger] s.occupants@[k].description is Some;
            seq![s.occupants@[k].name@, s.occupants@[k].description->Some_0@]
        },
        Target::Empty => Seq::empty(),
    }
}

impl LookCmd {
    /// The lines to show for the processed subject.
    pub fn run(self, surroundings: &Surroundings) -> (r: Vec<String>)
        requires
            self.processed matches Some(p) && look_describable(*surroundings, p.subject),
        ensures
            r@.map_values(|l: String| l@) == look_lines(*surroundings, self.processed->Some_0.subject),
    {
        let subject = match self.processed {
            Some(p) => p.subject,
            None => Target::Empty,
        };
        let mut output: Vec<String> = Vec::new();
        match subject {
            Target::Area(_) => {
                output.push(string_of(surroundings.area_name.as_str()));
                match &surroundings.area_description {
                    Some(d) => output.push(string_of(d.as_str())),
                    None => {},
                }
            },
            Target::Route(uid) => {
                let rs = &surroundings.routes;
                let mut i: usize = 0;
                while i < rs.len() && rs[i].uid != uid
                    invariant
                        i <= rs.len(),
                        forall|j: int| 0 <= j < i ==> (#[trigger] rs@[j]).uid != uid,
                    decreases rs.len() - i,
                {
                    i = i + 1;
                }
                proof {
                    let k = choose|k: int| first_route(rs@, uid, k) && #[trigger] rs@[k].end_description is Some;
                    assert(i == k) by {
                        if i < k { assert(rs@[i as int].uid != uid); }
                        if k < i { assert(rs@[k].uid != uid); }
                    }
                }
                output.push(string_of(rs[i].end_name.as_str()));
                match &rs[i].end_description {
                    Some(d) => output.push(string_of(d.as_str())),
                    None => {},
                }
            },
            Target::Thing(uid) => {
                let ts = &surroundings.occupants;
                let mut i: usize = 0;
                while i < ts.len() && ts[i].uid != uid
                    invariant
                        i <= ts.len(),
                        forall|j: int| 0 <= j < i ==> (#[trigger] ts@[j]).uid != uid,
                    decreases ts.len() - i,
                {
                    i = i + 1;
                }
                proof {
                    let k = choose|k: int| first_thing(ts@, uid, k) && #[trigger] ts@[k].description is Some;
                    assert(i == k) by {
                        if i < k { assert(ts@[i as int].uid != uid); }
                        if k < i { assert(ts@[k].uid != uid); }
                    }
                }
                output.push(string_of(ts[i].name.as_str()));
                match &ts[i].description {
                    Some(d) => output.push(string_of(d.as_str())),
                    None => {},
                }
            },
            Target::Empty => {},
        }
        assert(output@.map_values(|l: String| l@) =~= look_lines(*surroundings, subject));
        output
    }
}

impl GoCmd {
    /// The model action that moving along the processed destination route takes.
    pub fn run(self, surroundings: &Surroundings) -> (r: Action)
        requires
            self.spec_processed() matches Some(p) && p.destination is Route,
        ensures
            r == Action::Go(GoAction {
                base: BaseAction { frame: surroundings.frame, thing_uid: surroundings.viewer_uid },
                origin_area_id: surroundings.area_uid,
                route_uid: self.spec_processed()->Some_0.destination->Route_0,
            }),
    {
        let route_uid = match self.processed {
            Some(ProcessedGoCmd { destination: Target::Route(route_uid) }) => route_uid,
            _ => 0,
        };
        Action::Go(GoAction {
            base: BaseAction { frame: surroundings.frame, thing_uid: surroundings.viewer_uid },
            origin_area_id: surroundings.area_uid,
            route_uid: route_uid,
        })
    }
}

} // verus!
