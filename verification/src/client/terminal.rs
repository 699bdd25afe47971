use vstd::prelude::*;
use crate::client::target::{RouteSight, Surroundings, Target, TargetType, perceived, kind_of, lemma_find_finds_perceived, lemma_perceived_listed, first_route, first_thing};
use crate::client::cmd::{Cmd, cmd_processed, look_lines, look_describable, all_target_types};
use crate::client::input::Command;
use crate::client::error::{Result, error_message};
use crate::action::{Action, BaseAction};
use crate::action::go::GoAction;
use crate::message::auth::{AuthAnswerMsg, AuthChallengeMsg, Web3AuthAnswer};
use crate::text::{append_str, decimal_string, decimal_text, lines, push_char, split_lines, string_of};
use crate::timeframe::Frame;

verus! {

/// A context that terminal entries may belong to.
#[derive(Debug, PartialEq, Eq, Clone, Copy, Structural)]
pub enum TerminalContext {
    Global,
    Inventory,
}

/// How a terminal entry is shown.
#[derive(Debug, PartialEq, Eq, Clone, Copy, Structural)]
pub enum EntryCategory {
    Standard,
    Technical,
    Warning,
    Error,
    Debug,
    Context(TerminalContext),
}

/// Entries as plain values.
pub open spec fn entries_view(v: Seq<(String, EntryCategory)>) -> Seq<(Seq<char>, EntryCategory)> {
    v.map_values(|e: (String, EntryCategory)| (e.0@, e.1))
}

/// Lines, each in the category `c`.
pub open spec fn categorized(ls: Seq<Seq<char>>, c: EntryCategory) -> Seq<(Seq<char>, EntryCategory)> {
    ls.map_values(|l: Seq<char>| (l, c))
}

/// The lines of each text of `texts`, in order.
pub open spec fn all_lines(texts: Seq<Seq<char>>) -> Seq<Seq<char>>
    decreases texts.len(),
{
    if texts.len() == 0 {
        Seq::empty()
    } else {
        all_lines(texts.drop_last()) + lines(texts.last())
    }
}

/// The line that lists a route on arrival: its direction, then its name.
pub open spec fn route_line(r: RouteSight) -> Seq<char> {
    r.direction.spec_name()@ + " : "@ + r.end_name@
}

/// The texts shown on arriving in an area: its description, line by line, an empty line, then one line per
/// route that leaves it.
pub open spec fn arrival_texts(s: Surroundings) -> Seq<Seq<char>> {
    lines(s.area_description->Some_0@) + seq![Seq::<char>::empty()] + s.routes@.map_values(|r: RouteSight| route_line(r))
}

/// The technical line that announces the frame at which the viewer joined the world.
pub open spec fn integrated_text(frame: Frame) -> Seq<char> {
    "Integrated into world at frame "@ + decimal_text(frame as nat) + "."@
}

/// The five status fields shown under the terminal.
pub struct Stats {
    pub device: String,
    pub left_hand: String,
    pub permeability: String,
    pub right_hand: String,
    pub frame: String,
}

/// The status shown before the viewer is synchronized: device, left hand, permeability, right hand, frame.
pub open spec fn initial_stats() -> Seq<Seq<char>> {
    seq!["/dev/tty/a0f24d3e"@, "LH: Empty"@, "H: 1000 R: 1000 A: 1000"@, "RH: Empty"@, "syncing"@]
}

impl Stats {
    /// The status shown before the viewer is synchronized.
    pub fn new() -> (r: Self)
        ensures
            r.spec_output() == initial_stats(),
    {
        Stats {
            device: string_of("/dev/tty/a0f24d3e"),
            left_hand: string_of("LH: Empty"),
            permeability: string_of("H: 1000 R: 1000 A: 1000"),
            right_hand: string_of("RH: Empty"),
            frame: string_of("syncing"),
        }
    }

    pub open spec fn spec_output(self) -> Seq<Seq<char>> {
        seq![self.device@, self.left_hand@, self.permeability@, self.right_hand@, self.frame@]
    }
}

/// The text console of the client: its title, the entries it shows, its status line, and what it knows of the
/// viewer's surroundings.
pub struct Console {
    pub title: String,
    pub entries: Vec<(String, EntryCategory)>,
    pub stats: Stats,
    pub stats_output: Vec<String>,
    pub ready: bool,
    pub frame: Frame,
    pub surroundings: Option<Surroundings>,
}

impl Console {
    /// A console that has shown nothing yet and waits to be synchronized.
    pub fn create() -> (r: Self)
        ensures
            r.title@ == "Terminal"@,
            r.entries@.len() == 0,
            r.stats_output@.len() == 0,
            r.stats.spec_output() == initial_stats(),
            !r.ready,
            r.frame == 0,
            r.surroundings is None,
    {
        Console {
            title: string_of("Terminal"),
            entries: Vec::new(),
            stats: Stats::new(),
            stats_output: Vec::new(),
            ready: false,
            frame: 0,
            surroundings: None,
        }
    }

    /// Shows a text, one entry per line, in the given category.
    pub fn to_terminal_output(&mut self, text: &str, category: EntryCategory)
        ensures
            entries_view(final(self).entries@) == entries_view(old(self).entries@) + categorized(lines(text@), category),
            final(self).title == old(self).title,
            final(self).stats == old(self).stats,
            final(self).stats_output == old(self).stats_output,
            final(self).ready == old(self).ready,
            final(self).frame == old(self).frame,
            final(self).surroundings == old(self).surroundings,
    {
        let ls = split_lines(text);
        let ghost before = entries_view(self.entries@);
        let mut i: usize = 0;
        while i < ls.len()
            invariant
                i <= ls.len(),
                entries_view(self.entries@) == before + categorized(ls@.map_values(|l: String| l@).subrange(0, i as int), category),
                self.title == old(self).title,
                self.stats == old(self).stats,
                self.stats_output == old(self).stats_output,
                self.ready == old(self).ready,
                self.frame == old(self).frame,
                self.surroundings == old(self).surroundings,
            decreases ls.len() - i,
        {
            let ghost prev = self.entries@;
            let e = string_of(ls[i].as_str());
            self.entries.push((e, category));
            assert(entries_view(self.entries@) =~= entries_view(prev).push((ls@[i as int]@, category)));
            assert(ls@.map_values(|l: String| l@).subrange(0, i + 1)
                =~= ls@.map_values(|l: String| l@).subrange(0, i as int).push(ls@[i as int]@));
            assert(entries_view(self.entries@) =~= before + categorized(ls@.map_values(|l: String| l@).subrange(0, i + 1), category));
            i = i + 1;
        }
        assert(ls@.map_values(|l: String| l@).subrange(0, ls@.len() as int) =~= ls@.map_values(|l: String| l@));
    }

    /// Shows one entry as it is.
    pub fn terminal_output(&mut self, text: String, category: EntryCategory)
        ensures
            entries_view(final(self).entries@) == entries_view(old(self).entries@).push((text@, category)),
            final(self).title == old(self).title,
            final(self).stats == old(self).stats,
            final(self).stats_output == old(self).stats_output,
            final(self).ready == old(self).ready,
            final(self).frame == old(self).frame,
            final(self).surroundings == old(self).surroundings,
    {
        let ghost prev = self.entries@;
        self.entries.push((text, category));
        assert(entries_view(self.entries@) =~= entries_view(prev).push((text@, category)));
    }

    /// Shows entries as they are, in order.
    pub fn terminal_outputs(&mut self, entries: Vec<(String, EntryCategory)>)
        ensures
            entries_view(final(self).entries@) == entries_view(old(self).entries@) + entries_view(entries@),
            final(self).title == old(self).title,
            final(self).stats == old(self).stats,
            final(self).stats_output == old(self).stats_output,
            final(self).ready == old(self).ready,
            final(self).frame == old(self).frame,
            final(self).surroundings == old(self).surroundings,
    {
        let ghost before = entries_view(self.entries@);
        let ghost given = entries_view(entries@);
        let mut rest = entries;
        let mut taken: Vec<(String, EntryCategory)> = Vec::new();
        while rest.len() > 0
            invariant
                entries_view(self.entries@) == before + given.subrange(0, given.len() - rest@.len()),
                rest@.len() <= given.len(),
                entries_view(rest@) == given.subrange(given.len() - rest@.len(), given.len() as int),
                self.title == old(self).title,
                self.stats == old(self).stats,
                self.stats_output == old(self).stats_output,
                self.ready == old(self).ready,
                self.frame == old(self).frame,
                self.surroundings == old(self).surroundings,
            decreases rest@.len(),
        {
            let ghost r = rest@;
            let e = rest.remove(0);
            let ghost prev = self.entries@;
            assert(entries_view(r)[0] == (e.0@, e.1));
            assert(entries_view(rest@) =~= entries_view(r).drop_first());
            self.entries.push(e);
            assert(entries_view(self.entries@) =~= entries_view(prev).push((e.0@, e.1)));
            assert(given.subrange(0, given.len() - rest@.len()) =~= given.subrange(0, given.len() - r.len()).push(given[given.len() - r.len()]));
        }
        assert(given.subrange(0, given.len() as int) =~= given);
    }

    /// Shows each text, one entry per line, in the given category.
    pub fn to_terminal_outputs(&mut self, entries: &Vec<String>, category: EntryCategory)
        ensures
            entries_view(final(self).entries@) == entries_view(old(self).entries@)
                + categorized(all_lines(entries@.map_values(|e: String| e@)), category),
            final(self).title == old(self).title,
            final(self).stats == old(self).stats,
            final(self).stats_output == old(self).stats_output,
            final(self).ready == old(self).ready,
            final(self).frame == old(self).frame,
            final(self).surroundings == old(self).surroundings,
    {
        let ghost before = entries_view(self.entries@);
        let ghost texts = entries@.map_values(|e: String| e@);
        let mut i: usize = 0;
        while i < entries.len()
            invariant
                i <= entries.len(),
                texts == entries@.map_values(|e: String| e@),
                entries_view(self.entries@) == before + categorized(all_lines(texts.subrange(0, i as int)), category),
                self.title == old(self).title,
                self.stats == old(self).stats,
                self.stats_output == old(self).stats_output,
                self.ready == old(self).ready,
                self.frame == old(self).frame,
                self.surroundings == old(self).surroundings,
            decreases entries.len() - i,
        {
            let ghost prefix = texts.subrange(0, i as int);
            let ghost next = texts.subrange(0, i + 1);
            assert(next.drop_last() =~= prefix);
            assert(next.last() == entries@[i as int]@);
            self.to_terminal_output(entries[i].as_str(), category);
            assert(categorized(all_lines(next), category)
                =~= categorized(all_lines(prefix), category) + categorized(lines(entries@[i as int]@), category));
            i = i + 1;
        }
        assert(texts.subrange(0, texts.len() as int) =~= texts);
    }

    /// Shows an empty line.
    pub fn terminal_newline(&mut self)
        ensures
            entries_view(final(self).entries@) == entries_view(old(self).entries@).push((Seq::<char>::empty(), EntryCategory::Standard)),
            final(self).title == old(self).title,
            final(self).stats == old(self).stats,
            final(self).stats_output == old(self).stats_output,
            final(self).ready == old(self).ready,
            final(self).frame == old(self).frame,
            final(self).surroundings == old(self).surroundings,
    {
        let empty = String::new();
        assert(lines(empty@) == seq![Seq::<char>::empty()]);
        self.to_terminal_output(empty.as_str(), EntryCategory::Standard);
        assert(categorized(lines(empty@), EntryCategory::Standard) =~= seq![(Seq::<char>::empty(), EntryCategory::Standard)]);
    }

    /// Shows the current status fields.
    pub fn refresh_stats(&mut self)
        ensures
            final(self).stats_output@.map_values(|s: String| s@) == old(self).stats.spec_output(),
            final(self).entries == old(self).entries,
            final(self).title == old(self).title,
            final(self).stats == old(self).stats,
            final(self).ready == old(self).ready,
            final(self).frame == old(self).frame,
            final(self).surroundings == old(self).surroundings,
    {
        let mut out: Vec<String> = Vec::new();
        out.push(string_of(self.stats.device.as_str()));
        out.push(string_of(self.stats.left_hand.as_str()));
        out.push(string_of(self.stats.permeability.as_str()));
        out.push(string_of(self.stats.right_hand.as_str()));
        out.push(string_of(self.stats.frame.as_str()));
        assert(out@.map_values(|s: String| s@) =~= self.stats.spec_output());
        self.stats_output = out;
    }

    /// The connection to the zone is made.
    pub fn on_connected(&mut self)
        ensures
            entries_view(final(self).entries@) == entries_view(old(self).entries@)
                + categorized(lines("Synchronizing with zone server."@), EntryCategory::Technical),
            final(self).title == old(self).title,
            final(self).stats == old(self).stats,
            final(self).stats_output == old(self).stats_output,
            final(self).ready == old(self).ready,
            final(self).frame == old(self).frame,
            final(self).surroundings == old(self).surroundings,
    {
        self.to_terminal_output("Synchronizing with zone server.", EntryCategory::Technical);
    }

    /// The viewer's surroundings arrived, at `frame`, for the interface named `device`. Returns whether the
    /// console just became ready, which it does once.
    pub fn on_synchronized(&mut self, surroundings: Surroundings, frame: Frame, device: String) -> (became_ready: bool)
        ensures
            became_ready == !old(self).ready,
            final(self).ready,
            final(self).surroundings == Some(surroundings),
            final(self).frame == frame,
            final(self).stats == (Stats { device: device, ..old(self).stats }),
            final(self).stats_output@.map_values(|s: String| s@) == final(self).stats.spec_output(),
            final(self).entries == old(self).entries,
            final(self).title == old(self).title,
    {
        self.surroundings = Some(surroundings);
        self.frame = frame;
        self.stats.device = device;
        self.refresh_stats();
        let became_ready = !self.ready;
        self.ready = true;
        became_ready
    }

    /// The console became ready: it announces the frame, shows `debug_text` (the surroundings as a debugger
    /// renders them) with a full stop, an empty line, titles itself after the area and shows the arrival texts.
    pub fn on_ready(&mut self, debug_text: &str)
        requires
            old(self).surroundings matches Some(s) && s.area_description is Some,
        ensures
            entries_view(final(self).entries@) == entries_view(old(self).entries@)
                + categorized(lines(integrated_text(old(self).frame)), EntryCategory::Technical)
                + categorized(lines(debug_text@ + "."@), EntryCategory::Debug)
                + seq![(Seq::<char>::empty(), EntryCategory::Standard)]
                + categorized(all_lines(arrival_texts(old(self).surroundings->Some_0)), EntryCategory::Standard),
            final(self).title@ == old(self).surroundings->Some_0.area_name@,
            final(self).stats == old(self).stats,
            final(self).stats_output == old(self).stats_output,
            final(self).ready == old(self).ready,
            final(self).frame == old(self).frame,
            final(self).surroundings == old(self).surroundings,
    {
        let mut integrated = string_of("Integrated into world at frame ");
        let numeral = decimal_string(self.frame);
        append_str(&mut integrated, numeral.as_str());
        push_char(&mut integrated, '.');
        proof {
            reveal_strlit(".");
        }
        assert(integrated@ =~= integrated_text(self.frame));
        self.to_terminal_output(integrated.as_str(), EntryCategory::Technical);

        let mut debug = string_of(debug_text);
        push_char(&mut debug, '.');
        assert(debug@ =~= debug_text@ + "."@);
        self.to_terminal_output(debug.as_str(), EntryCategory::Debug);
        self.terminal_newline();

        let texts = match &self.surroundings {
            Some(s) => {
                self.title = string_of(s.area_name.as_str());
                arrival_texts_of(s)
            },
            None => Vec::new(),
        };
        self.to_terminal_outputs(&texts, EntryCategory::Standard);
    }

    /// The connection to the zone is lost: the console is no longer ready and shows no status.
    pub fn on_disconnected(&mut self)
        ensures
            !final(self).ready,
            final(self).stats_output@.len() == 0,
            final(self).entries == old(self).entries,
            final(self).title == old(self).title,
            final(self).stats == old(self).stats,
            final(self).frame == old(self).frame,
            final(self).surroundings == old(self).surroundings,
    {
        self.ready = false;
        self.stats_output = Vec::new();
    }

    /// A new frame began: the status shows its number.
    pub fn on_frame(&mut self, frame: Frame)
        ensures
            final(self).frame == frame,
            final(self).stats.frame@ == decimal_text(frame as nat),
            final(self).stats.device == old(self).stats.device,
            final(self).stats.left_hand == old(self).stats.left_hand,
            final(self).stats.permeability == old(self).stats.permeability,
            final(self).stats.right_hand == old(self).stats.right_hand,
            final(self).stats_output@.map_values(|s: String| s@) == final(self).stats.spec_output(),
            final(self).entries == old(self).entries,
            final(self).title == old(self).title,
            final(self).ready == old(self).ready,
            final(self).surroundings == old(self).surroundings,
    {
        self.frame = frame;
        self.stats.frame = decimal_string(frame);
        self.refresh_stats();
    }
}

/// The texts shown on arriving in the area of `s`.
pub fn arrival_texts_of(s: &Surroundings) -> (r: Vec<String>)
    requires
        s.area_description is Some,
    ensures
        r@.map_values(|t: String| t@) == arrival_texts(*s),
{
    let mut out: Vec<String> = match &s.area_description {
        Some(d) => split_lines(d.as_str()),
        None => Vec::new(),
    };
    out.push(String::new());
    let ghost head = lines(s.area_description->Some_0@) + seq![Seq::<char>::empty()];
    assert(out@.map_values(|t: String| t@) =~= head);
    let mut i: usize = 0;
    while i < s.routes.len()
        invariant
            i <= s.routes.len(),
            head == lines(s.area_description->Some_0@) + seq![Seq::<char>::empty()],
            out@.map_values(|t: String| t@) == head + s.routes@.subrange(0, i as int).map_values(|r: RouteSight| route_line(r)),
        decreases s.routes.len() - i,
    {
        let r = &s.routes[i];
        let mut line = string_of(r.direction.name());
        append_str(&mut line, " : ");
        append_str(&mut line, r.end_name.as_str());
        assert(line@ =~= route_line(s.routes@[i as int]));
        let ghost prev = out@;
        out.push(line);
        assert(s.routes@.subrange(0, i + 1).map_values(|r: RouteSight| route_line(r))
            =~= s.routes@.subrange(0, i as int).map_values(|r: RouteSight| route_line(r)).push(route_line(s.routes@[i as int])));
        assert(out@.map_values(|t: String| t@) =~= prev.map_values(|t: String| t@).push(line@));
        i = i + 1;
    }
    assert(s.routes@.subrange(0, s.routes@.len() as int) =~= s.routes@);
    out
}

/// Whether the target is one that looking can show: the area, or a route or thing that the surroundings list.
pub open spec fn look_listed(s: Surroundings, t: Target) -> bool {
    match t {
        Target::Area(_) => true,
        Target::Route(uid) => exists|k: int| first_route(s.routes@, uid, k),
        Target::Thing(uid) => exists|k: int| first_thing(s.occupants@, uid, k),
        Target::Empty => false,
    }
}

/// A description as the lines it adds: itself, or nothing when it is not known.
pub open spec fn known(d: Option<String>) -> Seq<Seq<char>> {
    match d {
        Some(d) => seq![d@],
        None => Seq::empty(),
    }
}

/// The lines that the console shows on looking at `t`: its name, then its description when it is known.
pub open spec fn known_lines(s: Surroundings, t: Target) -> Seq<Seq<char>> {
    match t {
        Target::Area(_) => seq![s.area_name@] + known(s.area_description),
        Target::Route(uid) => {
            let k = choose|k: int| first_route(s.routes@, uid, k);
            seq![s.routes@[k].end_name@] + known(s.routes@[k].end_description)
        },
        Target::Thing(uid) => {
            let k = choose|k: int| first_thing(s.occupants@, uid, k);
            seq![s.occupants@[k].name@] + known(s.occupants@[k].description)
        },
        Target::Empty => Seq::empty(),
    }
}

/// Where the description is known, the console shows what `LookCmd::run` gives.
pub proof fn lemma_known_lines_are_look_lines(s: Surroundings, t: Target)
    requires
        look_describable(s, t),
    ensures
        known_lines(s, t) == look_lines(s, t),
{
    match t {
        Target::Route(uid) => {
            let k = choose|k: int| first_route(s.routes@, uid, k) && #[trigger] s.routes@[k].end_description is Some;
            let j = choose|j: int| first_route(s.routes@, uid, j);
            crate::client::target::lemma_first_route_unique(s.routes@, uid, j, k);
            assert(known_lines(s, t) =~= look_lines(s, t));
        },
        Target::Thing(uid) => {
            let k = choose|k: int| first_thing(s.occupants@, uid, k) && #[trigger] s.occupants@[k].description is Some;
            let j = choose|j: int| first_thing(s.occupants@, uid, j);
            crate::client::target::lemma_first_thing_unique(s.occupants@, uid, j, k);
            assert(known_lines(s, t) =~= look_lines(s, t));
        },
        Target::Area(_) => {
            assert(known_lines(s, t) =~= look_lines(s, t));
        },
        Target::Empty => {},
    }
}

/// The lines that the console shows on looking at `t`.
pub fn known_lines_of(s: &Surroundings, t: Target) -> (r: Vec<String>)
    requires
        look_listed(*s, t),
    ensures
        r@.map_values(|l: String| l@) == known_lines(*s, t),
{
    let mut out: Vec<String> = Vec::new();
    match t {
        Target::Area(_) => {
            out.push(string_of(s.area_name.as_str()));
            match &s.area_description {
                Some(d) => out.push(string_of(d.as_str())),
                None => {},
            }
        },
        Target::Route(uid) => {
            let rs = &s.routes;
            let mut i: usize = 0;
            while i < rs.len() && rs[i].uid != uid
                invariant
                    i <= rs.len(),
                    forall|j: int| 0 <= j < i ==> (#[trigger] rs@[j]).uid != uid,
                decreases rs.len() - i,
            {
                i = i + 1;
            }
            proof {
                let k = choose|k: int| first_route(rs@, uid, k);
                assert(i == k) by {
                    if i < k { assert(rs@[i as int].uid != uid); }
                    if k < i { assert(rs@[k].uid != uid); }
                }
            }
            out.push(string_of(rs[i].end_name.as_str()));
            match &rs[i].end_description {
                Some(d) => out.push(string_of(d.as_str())),
                None => {},
            }
        },
        Target::Thing(uid) => {
            let ts = &s.occupants;
            let mut i: usize = 0;
            while i < ts.len() && ts[i].uid != uid
                invariant
                    i <= ts.len(),
                    forall|j: int| 0 <= j < i ==> (#[trigger] ts@[j]).uid != uid,
                decreases ts.len() - i,
            {
                i = i + 1;
            }
            proof {
                let k = choose|k: int| first_thing(ts@, uid, k);
                assert(i == k) by {
                    if i < k { assert(ts@[i as int].uid != uid); }
                    if k < i { assert(ts@[k].uid != uid); }
                }
            }
            out.push(string_of(ts[i].name.as_str()));
            match &ts[i].description {
                Some(d) => out.push(string_of(d.as_str())),
                None => {},
            }
        },
        Target::Empty => {},
    }
    assert(out@.map_values(|l: String| l@) =~= known_lines(*s, t));
    out
}

/// What running the processed command `c` does: `look` shows the name of its subject and, when it is known,
/// its description;
/// `go` shows nothing and hands back the model action that moves the viewer along its route.
pub open spec fn cmd_ran(
    s: Surroundings,
    c: Cmd,
    before: Seq<(Seq<char>, EntryCategory)>,
    after: Seq<(Seq<char>, EntryCategory)>,
    r: Option<Action>,
) -> bool {
    match c {
        Cmd::Look(l) => r is None
            && after == before + categorized(known_lines(s, l.processed->Some_0.subject), EntryCategory::Standard),
        Cmd::Go(g) => after == before && r == Some(Action::Go(GoAction {
            base: BaseAction { frame: s.frame, thing_uid: s.viewer_uid },
            origin_area_id: s.area_uid,
            route_uid: g.spec_processed()->Some_0.destination->Route_0,
        })),
    }
}

/// Whether the processed command `c` can run against `s`: its target is known and, for `look`, listed.
pub open spec fn cmd_runnable(s: Surroundings, c: Cmd) -> bool {
    match c {
        Cmd::Look(l) => l.processed matches Some(p) && look_listed(s, p.subject),
        Cmd::Go(g) => g.spec_processed() matches Some(p) && p.destination is Route,
    }
}

impl Console {
    /// Runs a processed command: `look` shows its lines; `go` gives back its model action.
    pub fn run_cmd(&mut self, cmd: Cmd) -> (r: Option<Action>)
        requires
            old(self).surroundings matches Some(s) && cmd_runnable(s, cmd),
        ensures
            cmd_ran(old(self).surroundings->Some_0, cmd, entries_view(old(self).entries@), entries_view(final(self).entries@), r),
            final(self).title == old(self).title,
            final(self).stats == old(self).stats,
            final(self).stats_output == old(self).stats_output,
            final(self).ready == old(self).ready,
            final(self).frame == old(self).frame,
            final(self).surroundings == old(self).surroundings,
    {
        match cmd {
            Cmd::Look(look) => {
                let subject = match look.processed {
                    Some(p) => p.subject,
                    None => Target::Empty,
                };
                let texts = match &self.surroundings {
                    Some(s) => known_lines_of(s, subject),
                    None => Vec::new(),
                };
                let mut entries: Vec<(String, EntryCategory)> = Vec::new();
                let mut i: usize = 0;
                while i < texts.len()
                    invariant
                        i <= texts.len(),
                        entries_view(entries@) == categorized(texts@.map_values(|t: String| t@).subrange(0, i as int), EntryCategory::Standard),
                    decreases texts.len() - i,
                {
                    let ghost prev = entries@;
                    entries.push((string_of(texts[i].as_str()), EntryCategory::Standard));
                    assert(entries_view(entries@) =~= entries_view(prev).push((texts@[i as int]@, EntryCategory::Standard)));
                    assert(texts@.map_values(|t: String| t@).subrange(0, i + 1)
                        =~= texts@.map_values(|t: String| t@).subrange(0, i as int).push(texts@[i as int]@));
                    i = i + 1;
                }
                assert(texts@.map_values(|t: String| t@).subrange(0, texts@.len() as int) =~= texts@.map_values(|t: String| t@));
                self.terminal_outputs(entries);
                None
            },
            Cmd::Go(go) => match &self.surroundings {
                Some(s) => Some(go.run(s)),
                None => None,
            },
        }
    }

    /// Processes a command against the viewer's surroundings and runs it. A target that cannot be found is the
    /// error, whose message the console shows as an error.
    pub fn handle_command(&mut self, command: Command) -> (r: Result<Option<Action>>)
        requires
            old(self).surroundings is Some,
        ensures
            match r {
                Err(e) => cmd_processed(command.spec_cmd(), old(self).surroundings->Some_0, Err(e))
                    && entries_view(final(self).entries@)
                        == entries_view(old(self).entries@) + categorized(lines(error_message(e)), EntryCategory::Error),
                Ok(a) => exists|c: Cmd| cmd_processed(command.spec_cmd(), old(self).surroundings->Some_0, Ok(c))
                    && #[trigger] cmd_ran(old(self).surroundings->Some_0, c, entries_view(old(self).entries@), entries_view(final(self).entries@), a),
            },
            final(self).title == old(self).title,
            final(self).stats == old(self).stats,
            final(self).stats_output == old(self).stats_output,
            final(self).ready == old(self).ready,
            final(self).frame == old(self).frame,
            final(self).surroundings == old(self).surroundings,
    {
        let ghost before = command.spec_cmd();
        let processed = match &self.surroundings {
            Some(s) => command.process(s),
            None => return Ok(None),
        };
        let ghost s = self.surroundings->Some_0;
        match processed {
            Err(e) => {
                let message = e.message();
                self.to_terminal_output(message.as_str(), EntryCategory::Error);
                Err(e)
            },
            Ok(cmd) => {
                let ghost gcmd = cmd;
                proof {
                    match gcmd {
                        Cmd::Look(l) => {
                            let t = l.processed->Some_0.subject;
                            match l.subject {
                                Some(subject) => {
                                    lemma_find_finds_perceived(subject@, s, all_target_types(), "Destination", t);
                                },
                                None => {},
                            }
                            lemma_perceived_listed(s, t);
                        },
                        Cmd::Go(g) => {
                            let t = g.spec_processed()->Some_0.destination;
                            match before {
                                Cmd::Go(g0) => {
                                    lemma_find_finds_perceived(g0.spec_destination(), s, seq![TargetType::Route], "Destination", t);
                                },
                                _ => {},
                            }
                        },
                    }
                }
                let r = self.run_cmd(cmd);
                Ok(r)
            },
        }
    }
}

/// The console's answer to the zone's challenge: a Web3 answer whose signature is all zeros.
pub fn answer_challenge(challenge: &AuthChallengeMsg) -> (r: AuthAnswerMsg)
    ensures
        r matches AuthAnswerMsg::Web3(a) && a.signature@ == Seq::new(64, |i: int| 0u8),
{
    match challenge {
        AuthChallengeMsg::Web3(_) => {
            let signature = [0u8; 64];
            assert(signature@ =~= Seq::new(64, |i: int| 0u8));
            AuthAnswerMsg::Web3(Web3AuthAnswer { signature })
        },
    }
}

} // verus!
