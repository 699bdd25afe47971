use vstd::prelude::*;
use crate::client::error::{Error, Result};
use crate::text::{chars_of, string_from_chars, is_white_space, is_trim_char, trim, trim_bounds, words};
use crate::text::{lemma_trim_range, lemma_trim_start, lemma_trim_end, lemma_words_white_space_around};
use crate::client::cmd::{Cmd, CmdOutcome, cmd_spec, cmd_outcome, cmd_processed, cmd_unprocessed};
use crate::client::target::Surroundings;

verus! {

/// `s` with each escaped quote (a backslash followed by a double quote), scanned left to right, replaced by a
/// double quote.
pub open spec fn unescape_quotes(s: Seq<char>) -> Seq<char>
    decreases s.len(),
{
    if s.len() < 2 {
        s
    } else if s[0] == '\\' && s[1] == '"' {
        seq!['"'] + unescape_quotes(s.skip(2))
    } else {
        seq![s[0]] + unescape_quotes(s.skip(1))
    }
}

/// One argument cut from the input: without surrounding spaces and quotes, and with escaped quotes unescaped.
pub open spec fn clean_argument(s: Seq<char>) -> Seq<char> {
    unescape_quotes(trim(s, false))
}

/// Appends an argument unless it is empty.
pub open spec fn push_argument(args: Seq<Seq<char>>, arg: Seq<char>) -> Seq<Seq<char>> {
    if arg.len() > 0 { args.push(arg) } else { args }
}

/// The state of the scan over the (trimmed) input.
pub struct ScanState {
    pub args: Seq<Seq<char>>,
    pub quote_open: bool,
    pub escaped: bool,
    pub start: int,
}

/// The scan state after reading one more character `c`, found at index `i` of `t`.
///
/// An escaped character is skipped. A double quote opens a quoted section or closes it, cutting an argument.
/// A space outside quotes cuts an argument. A backslash escapes the next character. A cut argument runs from
/// the previous cut (or opening quote) to the current index.
pub open spec fn scan_step(t: Seq<char>, st: ScanState, i: int, c: char) -> ScanState {
    if st.escaped {
        ScanState { escaped: false, ..st }
    } else if c == '"' {
        if st.quote_open {
            ScanState {
                args: push_argument(st.args, clean_argument(t.subrange(st.start, i))),
                quote_open: false,
                escaped: false,
                start: i,
            }
        } else {
            ScanState { quote_open: true, start: i, ..st }
        }
    } else if c == ' ' {
        if !st.quote_open {
            ScanState { args: push_argument(st.args, clean_argument(t.subrange(st.start, i))), start: i, ..st }
        } else {
            st
        }
    } else if c == '\\' {
        ScanState { escaped: true, ..st }
    } else {
        st
    }
}

/// The scan state after reading the first `n` characters of `t`.
pub open spec fn scan(t: Seq<char>, n: nat) -> ScanState
    decreases n,
{
    if n == 0 {
        ScanState { args: Seq::empty(), quote_open: false, escaped: false, start: 0 }
    } else {
        scan_step(t, scan(t, (n - 1) as nat), n - 1, t[n - 1])
    }
}

/// The arguments of a command line: `None` when a quote is left open, else the words and double-quoted
/// sections of the trimmed text, in order.
pub open spec fn split_arguments_spec(text: Seq<char>) -> Option<Seq<Seq<char>>> {
    let t = trim(text, true);
    let st = scan(t, t.len());
    if st.quote_open {
        None
    } else {
        Some(push_argument(st.args, clean_argument(t.subrange(st.start, t.len() as int))))
    }
}

pub open spec fn strings_view(v: Seq<String>) -> Seq<Seq<char>> {
    v.map_values(|s: String| s@)
}

/// The characters of `v[from..to]` with escaped quotes unescaped.
fn unescape_range(v: &Vec<char>, from: usize, to: usize) -> (r: Vec<char>)
    requires
        from <= to <= v.len(),
    ensures
        r@ == unescape_quotes(v@.subrange(from as int, to as int)),
{
    let ghost s = v@.subrange(from as int, to as int);
    let mut out: Vec<char> = Vec::new();
    let mut i = from;
    assert(s.skip(0) =~= s);
    assert(out@ + unescape_quotes(s) =~= unescape_quotes(s));
    while i < to
        invariant
            from <= i <= to <= v.len(),
            s == v@.subrange(from as int, to as int),
            out@ + unescape_quotes(s.skip(i - from)) == unescape_quotes(s),
        decreases to - i,
    {
        let ghost rest = s.skip(i - from);
        if i + 1 < to && v[i] == '\\' && v[i + 1] == '"' {
            assert(rest[0] == v@[i as int] && rest[1] == v@[i + 1]);
            assert(rest.skip(2) =~= s.skip(i + 2 - from));
            out.push('"');
            i = i + 2;
        } else {
            assert(rest[0] == v@[i as int]);
            proof {
                if rest.len() >= 2 {
                    assert(rest[1] == v@[i + 1]);
                }
            }
            assert(rest.skip(1) =~= s.skip(i + 1 - from));
            proof { if rest.len() < 2 {
                assert(rest =~= seq![rest[0]]);
                assert(s.skip(i + 1 - from) =~= Seq::<char>::empty());
            } }
            out.push(v[i]);
            i = i + 1;
        }
    }
    assert(s.skip(to - from) =~= Seq::<char>::empty());
    assert(out@ + Seq::<char>::empty() =~= out@);
    out
}

/// Cuts the argument `v[from..to]`: trimmed of spaces and quotes, with escaped quotes unescaped.
fn cut_argument(v: &Vec<char>, from: usize, to: usize) -> (r: Vec<char>)
    requires
        from <= to <= v.len(),
    ensures
        r@ == clean_argument(v@.subrange(from as int, to as int)),
{
    let (lo, hi) = trim_bounds(v, from, to, false);
    unescape_range(v, lo, hi)
}

/// Appends the argument unless it is empty.
fn push_argument_exec(args: &mut Vec<String>, arg: Vec<char>)
    ensures
        strings_view(final(args)@) == push_argument(strings_view(old(args)@), arg@),
{
    if arg.len() > 0 {
        let s = string_from_chars(&arg);
        args.push(s);
        assert(strings_view(args@) =~= strings_view(old(args)@).push(arg@));
    }
}

/// Processes a raw command-line string and splits each word or double-quoted section into an argument.
/// Examples:
/// - `go there` -> ["go", "there"]
/// - `go "there again"` -> ["go", "there again"]
/// - `greet "There are some who call me ... \"Tim\"."` -> ["greet", "There are some who call me ... \"Tim\"."]
pub fn split_arguments(text: &str) -> (r: Result<Vec<String>>)
    ensures
        match r {
            Ok(args) => split_arguments_spec(text@) == Some(strings_view(args@)),
            Err(e) => split_arguments_spec(text@) is None && (e matches Error::GenericInputParsing(m) && m@ == trim(text@, true)),
        },
{
    let all = chars_of(text);
    let (tlo, thi) = trim_bounds(&all, 0, all.len(), true);
    let ghost full = all@;
    assert(full.subrange(0, full.len() as int) =~= text@);
    let mut t: Vec<char> = Vec::new();
    let mut k = tlo;
    while k < thi
        invariant
            tlo <= k <= thi <= all.len(),
            t@ == all@.subrange(tlo as int, k as int),
        decreases thi - k,
    {
        t.push(all[k]);
        assert(all@.subrange(tlo as int, k as int).push(all@[k as int]) =~= all@.subrange(tlo as int, k + 1));
        k = k + 1;
    }
    let ghost tv = trim(text@, true);
    assert(t@ == tv);

    let mut arguments: Vec<String> = Vec::new();
    let mut quote_open = false;
    let mut escaped = false;
    let mut start_pos: usize = 0;
    let mut i: usize = 0;
    assert(strings_view(arguments@) =~= Seq::<Seq<char>>::empty());
    while i < t.len()
        invariant
            i <= t.len(),
            t@ == tv,
            start_pos <= i,
            scan(tv, i as nat) == (ScanState { args: strings_view(arguments@), quote_open, escaped, start: start_pos as int }),
        decreases t.len() - i,
    {
        let chr = t[i];
        let ghost before = scan(tv, i as nat);
        assert(scan(tv, (i + 1) as nat) == scan_step(tv, before, i as int, chr));
        if escaped {
            escaped = false;
        } else if chr == '"' {
            if quote_open {
                quote_open = false;
                let arg = cut_argument(&t, start_pos, i);
                push_argument_exec(&mut arguments, arg);
                start_pos = i;
            } else {
                quote_open = true;
                start_pos = i;
            }
        } else if chr == ' ' {
            if !quote_open {
                let arg = cut_argument(&t, start_pos, i);
                push_argument_exec(&mut arguments, arg);
                start_pos = i;
            }
        } else if chr == '\\' {
            escaped = true;
        }
        i = i + 1;
    }

    if quote_open {
        return Err(Error::GenericInputParsing(string_from_chars(&t)));
    }

    let arg = cut_argument(&t, start_pos, t.len());
    push_argument_exec(&mut arguments, arg);
    Ok(arguments)
}

} // verus!

verus! {

/// A line of text input, with the arguments split from it.
#[derive(PartialEq, Eq, Debug)]
pub struct TextInput {
    text: String,
    tokens: Vec<String>,
}

impl TextInput {
    pub closed spec fn spec_text(self) -> Seq<char> {
        self.text@
    }

    pub closed spec fn spec_args(self) -> Seq<Seq<char>> {
        strings_view(self.tokens@)
    }

    pub fn parse(text: String) -> (r: Result<Self>)
        ensures
            match r {
                Ok(input) => split_arguments_spec(text@) == Some(input.spec_args()) && input.spec_text() == text@,
                Err(e) => split_arguments_spec(text@) is None
                    && (e matches Error::GenericInputParsing(m) && m@ == trim(text@, true)),
            },
    {
        let tokens = split_arguments(text.as_str())?;
        Ok(Self { text, tokens })
    }

    pub fn args(&self) -> (r: &Vec<String>)
        ensures
            strings_view(r@) == self.spec_args(),
    {
        &self.tokens
    }

    pub fn text(&self) -> (r: &str)
        ensures
            r@ == self.spec_text(),
    {
        self.text.as_str()
    }
}

/// Parses one kind of input from a line of text.
pub trait Parser: Sized {
    fn parse(input: TextInput) -> Result<Self>;
}

/// Any further input is within the specified context. E.g.: `.inventory`
#[derive(PartialEq, Eq, Debug)]
pub struct Context {
    name: String,
}

/// The user's character speaks out loud in its local area. E.g.: `'Hello to everyone in this area`
#[derive(PartialEq, Eq, Debug)]
pub struct Talk {
    message: String,
}

/// A command, either global or contextual. E.g.: `go east`
#[derive(Debug, PartialEq, Eq)]
pub struct Command {
    cmd: Cmd,
}

/// `text` without its first character, when that is `c`.
pub open spec fn strip_prefix_spec(text: Seq<char>, c: char) -> Option<Seq<char>> {
    if text.len() > 0 && text[0] == c { Some(text.drop_first()) } else { None }
}

/// Strips the leading character `c` from `text`.
fn strip_prefix_char(text: &str, c: char) -> (r: Option<String>)
    ensures
        match r {
            Some(s) => strip_prefix_spec(text@, c) == Some(s@),
            None => strip_prefix_spec(text@, c) is None,
        },
{
    let chars = chars_of(text);
    if chars.len() > 0 && chars[0] == c {
        let mut rest: Vec<char> = Vec::new();
        let mut i: usize = 1;
        while i < chars.len()
            invariant
                1 <= i <= chars.len(),
                rest@ == chars@.subrange(1, i as int),
            decreases chars.len() - i,
        {
            rest.push(chars[i]);
            assert(chars@.subrange(1, i as int).push(chars@[i as int]) =~= chars@.subrange(1, i + 1));
            i = i + 1;
        }
        assert(chars@.subrange(1, chars@.len() as int) =~= text@.drop_first());
        Some(string_from_chars(&rest))
    } else {
        None
    }
}

impl Context {
    pub closed spec fn spec_name(self) -> Seq<char> {
        self.name@
    }

    pub fn new(name: String) -> (r: Self)
        ensures
            r.spec_name() == name@,
    {
        Self { name }
    }
}

impl Parser for Context {
    fn parse(input: TextInput) -> (r: Result<Self>)
        ensures
            match r {
                Ok(c) => strip_prefix_spec(input.spec_text(), '.') == Some(c.spec_name()),
                Err(e) => strip_prefix_spec(input.spec_text(), '.') is None
                    && (e matches Error::GenericInputParsing(m) && m@ == input.spec_text()),
            },
    {
        match strip_prefix_char(input.text(), '.') {
            Some(name) => Ok(Self { name }),
            None => Err(Error::GenericInputParsing(input.text().to_owned())),
        }
    }
}

impl Talk {
    pub closed spec fn spec_message(self) -> Seq<char> {
        self.message@
    }

    pub fn new(message: String) -> (r: Self)
        ensures
            r.spec_message() == message@,
    {
        Self { message }
    }
}

impl Parser for Talk {
    fn parse(input: TextInput) -> (r: Result<Self>)
        ensures
            match r {
                Ok(t) => strip_prefix_spec(input.spec_text(), '\'') == Some(t.spec_message()),
                Err(e) => strip_prefix_spec(input.spec_text(), '\'') is None
                    && (e matches Error::GenericInputParsing(m) && m@ == input.spec_text()),
            },
    {
        match strip_prefix_char(input.text(), '\'') {
            Some(message) => Ok(Self { message }),
            None => Err(Error::GenericInputParsing(input.text().to_owned())),
        }
    }
}

impl Command {
    pub closed spec fn spec_cmd(self) -> Cmd {
        self.cmd
    }

    pub fn new(cmd: Cmd) -> (r: Self)
        ensures
            r.spec_cmd() == cmd,
    {
        Self { cmd }
    }

    pub fn cmd(&self) -> (r: &Cmd)
        ensures
            *r == self.spec_cmd(),
    {
        &self.cmd
    }

    /// Processes the command against what the viewer perceives.
    pub fn process(self, surroundings: &Surroundings) -> (r: Result<Cmd>)
        ensures
            cmd_processed(self.spec_cmd(), *surroundings, r),
    {
        self.cmd.process(surroundings)
    }
}

impl Parser for Command {
    fn parse(input: TextInput) -> (r: Result<Self>)
        ensures
            cmd_outcome(match r {
                Ok(c) => Ok(c.spec_cmd()),
                Err(e) => Err(e),
            }) == cmd_spec(input.spec_text(), input.spec_args()),
            r matches Ok(c) ==> cmd_unprocessed(c.spec_cmd()),
    {
        match Cmd::parse(&input) {
            Ok(cmd) => Ok(Self { cmd }),
            Err(e) => Err(e),
        }
    }
}

/// A parsed line of input.
#[derive(PartialEq, Eq, Debug)]
pub enum ParsedInput {
    /// A command, either global or contextual. E.g.: go east
    Command(Command),
    /// Any further input is within the specified context. E.g.: .inventory
    Context(Context),
    /// The user's character speaks out loud in its local area. E.g.: 'Hello to everyone in this area
    Talk(Talk),
}

/// What parsing a line of input gives, as plain values.
pub enum InputOutcome {
    Command(CmdOutcome),
    Context(Seq<char>),
    Talk(Seq<char>),
    /// The input could not be parsed; the text reported.
    Unparsable(Seq<char>),
}

/// Parsing of a line of input. The first character of the first argument decides: a period starts a context
/// (the rest of the line names it), a single quote starts speech (the rest of the line is said), anything
/// else starts a command. Input with an unclosed quote or without any argument cannot be parsed.
pub open spec fn parse_input_spec(text: Seq<char>) -> InputOutcome {
    match split_arguments_spec(text) {
        None => InputOutcome::Unparsable(trim(text, true)),
        Some(args) => {
            if args.len() == 0 {
                InputOutcome::Unparsable(text)
            } else if args[0][0] == '.' {
                match strip_prefix_spec(text, '.') {
                    Some(name) => InputOutcome::Context(name),
                    None => InputOutcome::Unparsable(text),
                }
            } else if args[0][0] == '\'' {
                match strip_prefix_spec(text, '\'') {
                    Some(message) => InputOutcome::Talk(message),
                    None => InputOutcome::Unparsable(text),
                }
            } else {
                InputOutcome::Command(cmd_spec(text, args))
            }
        },
    }
}

/// The plain outcome of parsed input.
pub open spec fn input_outcome(r: Result<ParsedInput>) -> InputOutcome {
    match r {
        Ok(ParsedInput::Command(c)) => InputOutcome::Command(cmd_outcome(Ok(c.spec_cmd()))),
        Ok(ParsedInput::Context(c)) => InputOutcome::Context(c.spec_name()),
        Ok(ParsedInput::Talk(t)) => InputOutcome::Talk(t.spec_message()),
        Err(Error::GenericInputParsing(t)) => InputOutcome::Unparsable(t@),
        Err(e) => InputOutcome::Command(cmd_outcome(Err(e))),
    }
}

proof fn lemma_scan_args_nonempty(t: Seq<char>, n: nat)
    requires
        n <= t.len(),
    ensures
        forall|k: int| 0 <= k < scan(t, n).args.len() ==> #[trigger] scan(t, n).args[k].len() > 0,
        0 <= scan(t, n).start <= n,
    decreases n,
{
    if n > 0 {
        lemma_scan_args_nonempty(t, (n - 1) as nat);
    }
}

/// Every argument that the split gives is non-empty.
pub proof fn lemma_split_arguments_nonempty(text: Seq<char>)
    ensures
        split_arguments_spec(text) matches Some(args) ==> forall|k: int| 0 <= k < args.len() ==> #[trigger] args[k].len() > 0,
{
    let t = trim(text, true);
    lemma_scan_args_nonempty(t, t.len());
}

/// Whether the character at index `i` of `t` is escaped: it follows a backslash that is not escaped itself.
pub open spec fn is_escaped(t: Seq<char>, i: int) -> bool
    decreases i,
{
    if i <= 0 {
        false
    } else {
        t[i - 1] == '\\' && !is_escaped(t, i - 1)
    }
}

/// The number of double quotes among the first `n` characters of `t` that are not escaped.
pub open spec fn unescaped_quotes(t: Seq<char>, n: nat) -> nat
    decreases n,
{
    if n == 0 {
        0
    } else {
        unescaped_quotes(t, (n - 1) as nat) + if t[n - 1] == '"' && !is_escaped(t, n - 1) { 1nat } else { 0nat }
    }
}

proof fn lemma_scan_quotes(t: Seq<char>, n: nat)
    requires
        n <= t.len(),
    ensures
        scan(t, n).escaped == is_escaped(t, n as int),
        scan(t, n).quote_open == (unescaped_quotes(t, n) % 2 == 1),
    decreases n,
{
    if n > 0 {
        lemma_scan_quotes(t, (n - 1) as nat);
    }
}

proof fn lemma_quotes_in_white_space(text: Seq<char>, n: nat)
    requires
        n <= text.len(),
        forall|j: int| 0 <= j < n ==> is_white_space(#[trigger] text[j]),
    ensures
        unescaped_quotes(text, n) == 0,
        !is_escaped(text, n as int),
    decreases n,
{
    if n > 0 {
        assert(is_white_space(text[n - 1]));
        lemma_quotes_in_white_space(text, (n - 1) as nat);
    }
}

proof fn lemma_quotes_after_white_space(text: Seq<char>, t: Seq<char>, a: int, i: nat)
    requires
        0 <= a,
        i <= t.len(),
        a + t.len() <= text.len(),
        forall|j: int| 0 <= j < t.len() ==> #[trigger] t[j] == text[a + j],
        forall|j: int| 0 <= j < a ==> is_white_space(#[trigger] text[j]),
    ensures
        is_escaped(text, a + i) == is_escaped(t, i as int),
        unescaped_quotes(text, (a + i) as nat) == unescaped_quotes(t, i),
    decreases i,
{
    if i == 0 {
        lemma_quotes_in_white_space(text, a as nat);
    } else {
        lemma_quotes_after_white_space(text, t, a, (i - 1) as nat);
        assert(t[i - 1] == text[a + i - 1]);
    }
}

proof fn lemma_quotes_before_white_space(text: Seq<char>, b: nat, n: nat)
    requires
        b <= n <= text.len(),
        forall|j: int| b <= j < text.len() ==> is_white_space(#[trigger] text[j]),
    ensures
        unescaped_quotes(text, n) == unescaped_quotes(text, b),
    decreases n,
{
    if n > b {
        assert(is_white_space(text[n - 1]));
        lemma_quotes_before_white_space(text, b, (n - 1) as nat);
    }
}

/// Splitting a command line fails exactly when the line holds an odd number of unescaped double quotes.
pub proof fn lemma_split_arguments_fails_on_odd_quotes(text: Seq<char>)
    ensures
        split_arguments_spec(text) is None <==> unescaped_quotes(text, text.len()) % 2 == 1,
{
    let (a, b) = lemma_trim_range(text, true);
    let t = trim(text, true);
    lemma_scan_quotes(t, t.len());
    assert forall|j: int| 0 <= j < t.len() implies #[trigger] t[j] == text[a + j] by {}
    lemma_quotes_after_white_space(text, t, a, t.len());
    lemma_quotes_before_white_space(text, b as nat, text.len());
}

proof fn lemma_unescape_plain(s: Seq<char>)
    requires
        forall|j: int| 0 <= j < s.len() ==> #[trigger] s[j] != '\\',
    ensures
        unescape_quotes(s) == s,
    decreases s.len(),
{
    if s.len() >= 2 {
        let r = s.skip(1);
        assert forall|j: int| 0 <= j < r.len() implies #[trigger] r[j] != '\\' by {
            assert(r[j] == s[j + 1]);
        }
        lemma_unescape_plain(r);
        assert(seq![s[0]] + r =~= s);
    }
}

/// An argument cut from plain text (at most one leading space, then neither spaces, quotes nor backslashes) is the
/// text after that space.
proof fn lemma_clean_plain(s: Seq<char>, lo: int)
    requires
        0 <= lo <= 1,
        lo <= s.len(),
        forall|j: int| 0 <= j < lo ==> #[trigger] s[j] == ' ',
        forall|j: int| lo <= j < s.len() ==> #[trigger] s[j] != ' ' && s[j] != '"' && s[j] != '\\',
    ensures
        clean_argument(s) == s.subrange(lo, s.len() as int),
{
    if lo < s.len() {
        assert(!is_trim_char(s[lo]));
    }
    lemma_trim_start(s, false, lo);
    let u = s.subrange(lo, s.len() as int);
    if u.len() > 0 {
        assert(u[u.len() - 1] == s[s.len() - 1]);
    }
    lemma_trim_end(u, false, u.len() as int);
    assert(u.subrange(0, u.len() as int) =~= u);
    assert forall|j: int| 0 <= j < u.len() implies #[trigger] u[j] != '\\' by {
        assert(u[j] == s[lo + j]);
    }
    lemma_unescape_plain(u);
}

/// Plain text: no double quotes, no backslashes, and no white space but the space character.
pub open spec fn is_plain_text(t: Seq<char>) -> bool {
    forall|j: int| 0 <= j < t.len() ==> #[trigger] t[j] != '"' && t[j] != '\\' && (is_white_space(t[j]) ==> t[j] == ' ')
}

proof fn lemma_scan_plain(t: Seq<char>, n: nat)
    requires
        n <= t.len(),
        is_plain_text(t),
        t.len() > 0 ==> t[0] != ' ',
    ensures
        !scan(t, n).quote_open,
        !scan(t, n).escaped,
        0 <= scan(t, n).start <= n,
        scan(t, n).start > 0 ==> scan(t, n).start < n && t[scan(t, n).start] == ' ',
        forall|j: int| scan(t, n).start < j < n ==> #[trigger] t[j] != ' ',
        push_argument(scan(t, n).args, clean_argument(t.subrange(scan(t, n).start, n as int)))
            == words(t.subrange(0, n as int)),
    decreases n,
{
    if n == 0 {
        lemma_clean_plain(t.subrange(0, 0), 0);
        assert(t.subrange(0, 0) =~= Seq::<char>::empty());
    } else {
        let m = (n - 1) as nat;
        lemma_scan_plain(t, m);
        let st = scan(t, m);
        let c = t[m as int];
        let pre = t.subrange(0, m as int);
        let cur = t.subrange(0, n as int);
        assert(cur.drop_last() =~= pre);
        assert(cur.last() == c);
        let s0 = st.start;
        let rs = if s0 == 0 { 0 } else { s0 + 1 };
        if c == ' ' {
            assert(m > 0);
            let seg = t.subrange(s0, m as int);
            assert forall|j: int| 0 <= j < (if s0 == 0 { 0int } else { 1int }) implies #[trigger] seg[j] == ' ' by {}
            assert forall|j: int| (if s0 == 0 { 0int } else { 1int }) <= j < seg.len() implies #[trigger] seg[j] != ' '
                && seg[j] != '"' && seg[j] != '\\' by {
                assert(seg[j] == t[s0 + j]);
            }
            let sp = t.subrange(m as int, n as int);
            assert forall|j: int| 0 <= j < 1 implies #[trigger] sp[j] == ' ' by {}
            lemma_clean_plain(sp, 1);
            assert(sp.subrange(1, 1) =~= Seq::<char>::empty());
        } else {
            assert(!is_white_space(c));
            let seg = t.subrange(s0, m as int);
            let seg2 = t.subrange(s0, n as int);
            let lo: int = if s0 == 0 { 0 } else { 1 };
            assert forall|j: int| 0 <= j < lo implies #[trigger] seg[j] == ' ' by {}
            assert forall|j: int| lo <= j < seg.len() implies #[trigger] seg[j] != ' ' && seg[j] != '"' && seg[j] != '\\' by {
                assert(seg[j] == t[s0 + j]);
            }
            assert forall|j: int| 0 <= j < lo implies #[trigger] seg2[j] == ' ' by {}
            assert forall|j: int| lo <= j < seg2.len() implies #[trigger] seg2[j] != ' ' && seg2[j] != '"' && seg2[j] != '\\' by {
                assert(seg2[j] == t[s0 + j]);
            }
            lemma_clean_plain(seg, lo);
            lemma_clean_plain(seg2, lo);
            assert(seg.subrange(lo, seg.len() as int) =~= t.subrange(rs, m as int));
            assert(seg2.subrange(lo, seg2.len() as int) =~= t.subrange(rs, n as int));
            assert(t.subrange(rs, m as int).push(c) =~= t.subrange(rs, n as int));
            if m >= 1 && t[m - 1] != ' ' {
                assert(cur[cur.len() - 2] == t[m - 1]);
                assert(rs < m);
                let p = words(pre);
                assert(p == st.args.push(t.subrange(rs, m as int)));
                assert(st.args.push(t.subrange(rs, n as int)) =~= p.update(p.len() - 1, p.last().push(c)));
            } else {
                if m >= 1 {
                    assert(cur[cur.len() - 2] == t[m - 1]);
                    if s0 < m - 1 {
                        assert(t[m - 1] != ' ');
                    }
                }
                assert(rs == m);
                assert(t.subrange(rs, m as int) =~= Seq::<char>::empty());
                assert(t.subrange(rs, n as int) =~= seq![c]);
            }
        }
    }
}

/// Plain text (no double quotes, no backslashes, and no white space but the space character) splits into its
/// words: the maximal runs of characters other than spaces, in order.
pub proof fn lemma_split_arguments_plain_text(text: Seq<char>)
    requires
        is_plain_text(text),
    ensures
        split_arguments_spec(text) == Some(words(text)),
{
    let (a, b) = lemma_trim_range(text, true);
    let t = trim(text, true);
    assert forall|j: int| 0 <= j < t.len() implies #[trigger] t[j] == text[a + j] by {}
    assert(is_plain_text(t)) by {
        assert forall|j: int| 0 <= j < t.len() implies #[trigger] t[j] != '"' && t[j] != '\\' && (is_white_space(t[j]) ==> t[j] == ' ') by {
            assert(t[j] == text[a + j]);
        }
    }
    if t.len() > 0 {
        assert(t[0] == text[a]);
    }
    lemma_scan_plain(t, t.len());
    assert(t.subrange(0, t.len() as int) =~= t);
    let w1 = text.subrange(0, a);
    let w2 = text.subrange(b, text.len() as int);
    assert forall|j: int| 0 <= j < w1.len() implies is_white_space(#[trigger] w1[j]) by {
        assert(w1[j] == text[j]);
    }
    assert forall|j: int| 0 <= j < w2.len() implies is_white_space(#[trigger] w2[j]) by {
        assert(w2[j] == text[b + j]);
    }
    lemma_words_white_space_around(w1, t, w2);
    assert(w1 + t + w2 =~= text);
}

impl ParsedInput {
    pub fn parse(text: String) -> (r: Result<Self>)
        ensures
            input_outcome(r) == parse_input_spec(text@),
            r matches Ok(ParsedInput::Command(c)) ==> cmd_unprocessed(c.spec_cmd()),
    {
        proof { lemma_split_arguments_nonempty(text@); }
        let ghost t = text@;
        let input = TextInput::parse(text)?;
        let tokens = input.args();
        if tokens.len() == 0 {
            return Err(Error::GenericInputParsing(input.text().to_owned()));
        }
        let first = chars_of(tokens[0].as_str());
        assert(first@.len() > 0);
        let first_char = first[0];
        if first_char == '.' {
            match Context::parse(input) {
                Ok(c) => Ok(Self::Context(c)),
                Err(e) => Err(e),
            }
        } else if first_char == '\'' {
            match Talk::parse(input) {
                Ok(c) => Ok(Self::Talk(c)),
                Err(e) => Err(e),
            }
        } else {
            match Command::parse(input) {
                Ok(c) => Ok(Self::Command(c)),
                Err(e) => Err(e),
            }
        }
    }
}

} // verus!
