use vstd::prelude::*;
use crate::error::BypsError;
use crate::text::{chars_of, same_chars, string_of};

verus! {

/// The parsed command line.
#[derive(Clone, Debug, PartialEq, Eq)]
pub struct Cli {
    pub command: Commands,
    /// Detailed logging; changes nothing the engine does.
    pub verbose: bool,
    /// Output format: json, csv, html, terminal.
    pub output: String,
}

/// What to do.
#[derive(Clone, Debug, PartialEq, Eq)]
pub enum Commands {
    /// Generate the variations for a URL.
    Scan { url: String, techniques: String, strategy: String, output_file: Option<String> },
    /// Generate the variations of one technique.
    Test { url: String, technique: String },
    /// Fingerprint the WAF in front of a URL.
    Detect { url: String },
    /// List the techniques.
    List { category: Option<String> },
    /// Generate, probe and classify.
    Exploit { url: String, techniques: String, strategy: String, output_file: Option<String>, max_tests: usize },
    /// Collect the parameters interactively.
    Wizard {},
    /// Look for a newer release.
    Update {},
}

/// The kind of a command.
#[derive(Clone, Copy, Debug, PartialEq, Eq, Structural)]
pub enum CommandKind {
    Scan,
    Test,
    Detect,
    List,
    Exploit,
    Wizard,
    Update,
}

/// An option that takes a value.
#[derive(Clone, Copy, Debug, PartialEq, Eq, Structural)]
pub enum Flag {
    Output,
    Techniques,
    Strategy,
    OutputFile,
    Category,
    MaxTests,
}

/// Number of options that take a value.
pub const FLAG_COUNT: usize = 6;

/// Default number of variations an exploit run tests.
pub const DEFAULT_MAX_TESTS: usize = 50;

pub open spec fn flag_index(f: Flag) -> int {
    match f {
        Flag::Output => 0,
        Flag::Techniques => 1,
        Flag::Strategy => 2,
        Flag::OutputFile => 3,
        Flag::Category => 4,
        Flag::MaxTests => 5,
    }
}

/// The option a word names, if any.
pub open spec fn flag_of(w: Seq<char>) -> Option<Flag> {
    if w == "-o"@ || w == "--output"@ {
        Some(Flag::Output)
    } else if w == "-t"@ || w == "--techniques"@ || w == "--technique"@ {
        Some(Flag::Techniques)
    } else if w == "-s"@ || w == "--strategy"@ {
        Some(Flag::Strategy)
    } else if w == "-f"@ || w == "--output-file"@ {
        Some(Flag::OutputFile)
    } else if w == "-c"@ || w == "--category"@ {
        Some(Flag::Category)
    } else if w == "-m"@ || w == "--max-tests"@ {
        Some(Flag::MaxTests)
    } else {
        None
    }
}

/// The command a word names, if any.
pub open spec fn command_of(w: Seq<char>) -> Option<CommandKind> {
    if w == "scan"@ {
        Some(CommandKind::Scan)
    } else if w == "test"@ {
        Some(CommandKind::Test)
    } else if w == "detect"@ {
        Some(CommandKind::Detect)
    } else if w == "list"@ {
        Some(CommandKind::List)
    } else if w == "exploit"@ {
        Some(CommandKind::Exploit)
    } else if w == "wizard"@ {
        Some(CommandKind::Wizard)
    } else if w == "update"@ {
        Some(CommandKind::Update)
    } else {
        None
    }
}

/// What the words read so far say.
pub struct ArgsView {
    pub bad: bool,
    pub verbose: bool,
    pub command: Option<CommandKind>,
    pub url: Option<Seq<char>>,
    /// One slot per option, by `flag_index`.
    pub values: Seq<Option<Seq<char>>>,
    /// The option whose value comes next.
    pub pending: Option<Flag>,
}

pub open spec fn initial_args() -> ArgsView {
    ArgsView {
        bad: false,
        verbose: false,
        command: None,
        url: None,
        values: Seq::new(FLAG_COUNT as nat, |i: int| None),
        pending: None,
    }
}

/// Reading one more word.
pub open spec fn step(st: ArgsView, w: Seq<char>) -> ArgsView {
    if st.bad {
        st
    } else if st.pending is Some {
        ArgsView { values: st.values.update(flag_index(st.pending->Some_0), Some(w)), pending: None, ..st }
    } else if w == "-v"@ || w == "--verbose"@ {
        ArgsView { verbose: true, ..st }
    } else if flag_of(w) is Some {
        ArgsView { pending: flag_of(w), ..st }
    } else if w.len() > 0 && w[0] == '-' {
        ArgsView { bad: true, ..st }
    } else if st.command is None {
        if command_of(w) is Some {
            ArgsView { command: command_of(w), ..st }
        } else {
            ArgsView { bad: true, ..st }
        }
    } else if st.url is None {
        ArgsView { url: Some(w), ..st }
    } else {
        ArgsView { bad: true, ..st }
    }
}

/// What the first `k` words say.
pub open spec fn read_args(args: Seq<Seq<char>>, k: nat) -> ArgsView
    decreases k,
{
    if k == 0 || k > args.len() {
        initial_args()
    } else {
        step(read_args(args, (k - 1) as nat), args[k - 1])
    }
}

/// The options `c` takes.
pub open spec fn allowed(c: CommandKind, f: Flag) -> bool {
    f == Flag::Output || match c {
        CommandKind::Scan => f == Flag::Techniques || f == Flag::Strategy || f == Flag::OutputFile,
        CommandKind::Test => f == Flag::Techniques,
        CommandKind::List => f == Flag::Category,
        CommandKind::Exploit => f == Flag::Techniques || f == Flag::Strategy || f == Flag::OutputFile
            || f == Flag::MaxTests,
        _ => false,
    }
}

/// `c` is followed by a URL.
pub open spec fn takes_url(c: CommandKind) -> bool {
    c == CommandKind::Scan || c == CommandKind::Test || c == CommandKind::Detect || c == CommandKind::Exploit
}

/// The value of a decimal numeral, if `s` is one.
pub open spec fn decimal_value(s: Seq<char>) -> Option<nat>
    decreases s.len(),
{
    if s.len() == 0 {
        None
    } else if !('0' <= s.last() && s.last() <= '9') {
        None
    } else if s.len() == 1 {
        Some((s.last() as nat - '0' as nat) as nat)
    } else {
        match decimal_value(s.drop_last()) {
            Some(v) => Some(v * 10 + (s.last() as nat - '0' as nat) as nat),
            None => None,
        }
    }
}

pub open spec fn value_of(st: ArgsView, f: Flag) -> Option<Seq<char>> {
    st.values[flag_index(f)]
}

/// The words make a complete, valid command line.
pub open spec fn args_ok(st: ArgsView) -> bool {
    &&& !st.bad
    &&& st.pending is None
    &&& st.command is Some
    &&& (takes_url(st.command->Some_0) <==> st.url is Some)
    &&& forall|f: Flag| value_of(st, f) is Some ==> allowed(st.command->Some_0, f)
    &&& (st.command == Some(CommandKind::Test) ==> value_of(st, Flag::Techniques) is Some)
    &&& (value_of(st, Flag::MaxTests) matches Some(m) ==> decimal_value(m) matches Some(n) && n <= usize::MAX)
}

/// The value of option `f`, or `default`.
pub open spec fn or_default(st: ArgsView, f: Flag, default: Seq<char>) -> Seq<char> {
    match value_of(st, f) {
        Some(v) => v,
        None => default,
    }
}

pub open spec fn opt_view(o: Option<String>) -> Option<Seq<char>> {
    match o {
        Some(s) => Some(s@),
        None => None,
    }
}

/// `cli` is what the words `st` says.
pub open spec fn cli_from(st: ArgsView, cli: Cli) -> bool {
    &&& cli.verbose == st.verbose
    &&& cli.output@ == or_default(st, Flag::Output, "terminal"@)
    &&& match cli.command {
        Commands::Scan { url, techniques, strategy, output_file } => st.command == Some(CommandKind::Scan)
            && Some(url@) == st.url && techniques@ == or_default(st, Flag::Techniques, "all"@)
            && strategy@ == or_default(st, Flag::Strategy, "balanced"@)
            && opt_view(output_file) == value_of(st, Flag::OutputFile),
        Commands::Test { url, technique } => st.command == Some(CommandKind::Test) && Some(url@) == st.url
            && Some(technique@) == value_of(st, Flag::Techniques),
        Commands::Detect { url } => st.command == Some(CommandKind::Detect) && Some(url@) == st.url,
        Commands::List { category } => st.command == Some(CommandKind::List) && opt_view(category)
            == value_of(st, Flag::Category),
        Commands::Exploit { url, techniques, strategy, output_file, max_tests } => st.command == Some(
            CommandKind::Exploit,
        ) && Some(url@) == st.url && techniques@ == or_default(st, Flag::Techniques, "all"@)
            && strategy@ == or_default(st, Flag::Strategy, "balanced"@)
            && opt_view(output_file) == value_of(st, Flag::OutputFile)
            && max_tests as nat == (match value_of(st, Flag::MaxTests) {
                Some(m) => decimal_value(m)->Some_0,
                None => DEFAULT_MAX_TESTS as nat,
            }),
        Commands::Wizard {} => st.command == Some(CommandKind::Wizard),
        Commands::Update {} => st.command == Some(CommandKind::Update),
    }
}

/// Whether `w` is the word `lit`.
fn is_word(w: &Vec<char>, lit: &str) -> (r: bool)
    ensures
        r == (w@ == lit@),
{
    same_chars(w, &chars_of(lit))
}

fn flag_word(w: &Vec<char>) -> (r: Option<Flag>)
    ensures
        r == flag_of(w@),
{
    if is_word(w, "-o") || is_word(w, "--output") {
        Some(Flag::Output)
    } else if is_word(w, "-t") || is_word(w, "--techniques") || is_word(w, "--technique") {
        Some(Flag::Techniques)
    } else if is_word(w, "-s") || is_word(w, "--strategy") {
        Some(Flag::Strategy)
    } else if is_word(w, "-f") || is_word(w, "--output-file") {
        Some(Flag::OutputFile)
    } else if is_word(w, "-c") || is_word(w, "--category") {
        Some(Flag::Category)
    } else if is_word(w, "-m") || is_word(w, "--max-tests") {
        Some(Flag::MaxTests)
    } else {
        None
    }
}

fn command_word(w: &Vec<char>) -> (r: Option<CommandKind>)
    ensures
        r == command_of(w@),
{
    if is_word(w, "scan") {
        Some(CommandKind::Scan)
    } else if is_word(w, "test") {
        Some(CommandKind::Test)
    } else if is_word(w, "detect") {
        Some(CommandKind::Detect)
    } else if is_word(w, "list") {
        Some(CommandKind::List)
    } else if is_word(w, "exploit") {
        Some(CommandKind::Exploit)
    } else if is_word(w, "wizard") {
        Some(CommandKind::Wizard)
    } else if is_word(w, "update") {
        Some(CommandKind::Update)
    } else {
        None
    }
}

impl Flag {
    fn index(&self) -> (r: usize)
        ensures
            r == flag_index(*self),
    {
        match self {
            Flag::Output => 0,
            Flag::Techniques => 1,
            Flag::Strategy => 2,
            Flag::OutputFile => 3,
            Flag::Category => 4,
            Flag::MaxTests => 5,
        }
    }
}

/// The value of a decimal numeral that fits in `usize`.
pub fn parse_decimal(s: &Vec<char>) -> (r: Option<usize>)
    ensures
        r matches Some(n) ==> decimal_value(s@) == Some(n as nat),
        r is None ==> !(decimal_value(s@) matches Some(n) && n <= usize::MAX),
{
    if s.len() == 0 {
        return None;
    }
    let mut acc: usize = 0;
    let mut i: usize = 0;
    while i < s.len()
        invariant
            s@.len() > 0,
            i <= s@.len(),
            i > 0 ==> decimal_value(s@.take(i as int)) == Some(acc as nat),
            i == 0 ==> acc == 0,
        decreases s@.len() - i,
    {
        let c = s[i];
        proof {
            assert(s@.take(i + 1).drop_last() =~= s@.take(i as int));
            assert(s@.take(i + 1).last() == c);
        }
        if !('0' <= c && c <= '9') {
            proof {
                lemma_decimal_prefix(s@, i + 1);
            }
            return None;
        }
        let d: usize = (c as u32 - '0' as u32) as usize;
        if acc > (usize::MAX - d) / 10 {
            proof {
                assert(acc * 10 + d > usize::MAX) by (nonlinear_arith)
                    requires
                        acc > (usize::MAX - d) / 10,
                        d <= 9,
                ;
                lemma_decimal_grows(s@, i + 1);
            }
            return None;
        }
        assert(acc * 10 + d <= usize::MAX) by (nonlinear_arith)
            requires
                acc <= (usize::MAX - d) / 10,
                d <= 9,
        ;
        acc = acc * 10 + d;
        i = i + 1;
    }
    assert(s@.take(i as int) =~= s@);
    Some(acc)
}

/// A numeral whose prefix is no numeral is none either.
proof fn lemma_decimal_prefix(s: Seq<char>, k: int)
    requires
        0 < k <= s.len(),
        decimal_value(s.take(k)) is None,
    ensures
        decimal_value(s) is None,
    decreases s.len() - k,
{
    if k < s.len() {
        assert(s.take(k + 1).drop_last() =~= s.take(k));
        lemma_decimal_prefix(s, k + 1);
    } else {
        assert(s.take(k) =~= s);
    }
}

/// A numeral is at least as large as each of its prefixes.
proof fn lemma_decimal_grows(s: Seq<char>, k: int)
    requires
        0 < k <= s.len(),
    ensures
        decimal_value(s.take(k)) is None ==> decimal_value(s) is None,
        decimal_value(s.take(k)) matches Some(p) ==> (decimal_value(s) is None || decimal_value(s)->Some_0 >= p),
    decreases s.len() - k,
{
    if k < s.len() {
        assert(s.take(k + 1).drop_last() =~= s.take(k));
        lemma_decimal_grows(s, k + 1);
        if let Some(p) = decimal_value(s.take(k)) {
            if let Some(q) = decimal_value(s.take(k + 1)) {
                assert(q >= p) by (nonlinear_arith)
                    requires
                        q == p * 10 + (s.take(k + 1).last() as nat - '0' as nat),
                        s.take(k + 1).last() as nat >= '0' as nat,
                ;
            }
        }
    } else {
        assert(s.take(k) =~= s);
    }
}

/// The words of a command line, as character sequences.
pub open spec fn args_view(args: Seq<String>) -> Seq<Seq<char>> {
    args.map_values(|s: String| s@)
}

pub open spec fn optv(o: Option<Vec<char>>) -> Option<Seq<char>> {
    match o {
        Some(v) => Some(v@),
        None => None,
    }
}

/// What the words read so far say.
struct ArgState {
    bad: bool,
    verbose: bool,
    command: Option<CommandKind>,
    url: Option<Vec<char>>,
    values: Vec<Option<Vec<char>>>,
    pending: Option<Flag>,
}

impl ArgState {
    spec fn view(&self) -> ArgsView {
        ArgsView {
            bad: self.bad,
            verbose: self.verbose,
            command: self.command,
            url: optv(self.url),
            values: self.values@.map_values(|o: Option<Vec<char>>| optv(o)),
            pending: self.pending,
        }
    }

    fn take_value(&self, f: Flag) -> (r: Option<Vec<char>>)
        requires
            self.values@.len() == FLAG_COUNT,
        ensures
            optv(r) == value_of(self.view(), f),
    {
        match &self.values[f.index()] {
            Some(v) => Some(slice_all(v)),
            None => None,
        }
    }
}

fn slice_all(v: &Vec<char>) -> (r: Vec<char>)
    ensures
        r@ == v@,
{
    crate::request::slice_chars(v, 0, v.len())
}

fn opt_string(o: Option<Vec<char>>) -> (r: Option<String>)
    ensures
        opt_view(r) == optv(o),
{
    match o {
        Some(v) => Some(string_of(&v)),
        None => None,
    }
}

fn value_or(st: &ArgState, f: Flag, default: &str) -> (r: String)
    requires
        st.values@.len() == FLAG_COUNT,
    ensures
        r@ == or_default(st.view(), f, default@),
{
    match st.take_value(f) {
        Some(v) => string_of(&v),
        None => default.to_owned(),
    }
}

/// Parses the words of a command line, program name excluded.
pub fn parse_args(args: &Vec<String>) -> (r: Result<Cli, BypsError>)
    ensures
        r is Ok <==> args_ok(read_args(args_view(args@), args@.len())),
        r matches Ok(cli) ==> cli_from(read_args(args_view(args@), args@.len()), cli),
        r matches Err(e) ==> e is Usage,
{
    let ghost words = args_view(args@);
    let mut values: Vec<Option<Vec<char>>> = Vec::new();
    let mut n: usize = 0;
    while n < FLAG_COUNT
        invariant
            n <= FLAG_COUNT,
            values@.len() == n,
            forall|j: int| 0 <= j < n ==> values@[j] is None,
        decreases FLAG_COUNT - n,
    {
        values.push(None);
        n = n + 1;
    }
    let mut st = ArgState { bad: false, verbose: false, command: None, url: None, values, pending: None };
    assert(st.view().values =~= initial_args().values);
    let mut k: usize = 0;
    while k < args.len()
        invariant
            words == args_view(args@),
            k <= args@.len(),
            st.values@.len() == FLAG_COUNT,
            st.view() == read_args(words, k as nat),
        decreases args@.len() - k,
    {
        let w = chars_of(args[k].as_str());
        assert(w@ == words[k as int]);
        let ghost before = st.view();
        if st.bad {
        } else if let Some(f) = st.pending {
            st.values.set(f.index(), Some(w));
            st.pending = None;
            assert(st.view().values =~= before.values.update(flag_index(f), Some(words[k as int])));
        } else if is_word(&w, "-v") || is_word(&w, "--verbose") {
            st.verbose = true;
        } else if let Some(f) = flag_word(&w) {
            st.pending = Some(f);
        } else if w.len() > 0 && w[0] == '-' {
            st.bad = true;
        } else if st.command.is_none() {
            match command_word(&w) {
                Some(c) => {
                    st.command = Some(c);
                },
                None => {
                    st.bad = true;
                },
            }
        } else if st.url.is_none() {
            st.url = Some(w);
        } else {
            st.bad = true;
        }
        assert(st.view().values =~= step(before, words[k as int]).values);
        k = k + 1;
    }
    let ghost fin = st.view();
    assert(fin == read_args(words, args@.len()));
    if st.bad || st.pending.is_some() {
        return Err(BypsError::Usage("malformed command line".to_owned()));
    }
    let c = match st.command {
        Some(c) => c,
        None => {
            return Err(BypsError::Usage("no command given".to_owned()));
        },
    };
    let wants_url = c == CommandKind::Scan || c == CommandKind::Test || c == CommandKind::Detect
        || c == CommandKind::Exploit;
    if wants_url != st.url.is_some() {
        return Err(BypsError::Usage("wrong number of arguments".to_owned()));
    }
    let flags = [Flag::Output, Flag::Techniques, Flag::Strategy, Flag::OutputFile, Flag::Category, Flag::MaxTests];
    let mut i: usize = 0;
    while i < FLAG_COUNT
        invariant
            i <= FLAG_COUNT,
            st.values@.len() == FLAG_COUNT,
            fin == st.view(),
            words == args_view(args@),
            fin == read_args(words, args@.len()),
            fin.command == Some(c),
            flags@ == seq![Flag::Output, Flag::Techniques, Flag::Strategy, Flag::OutputFile, Flag::Category, Flag::MaxTests],
            forall|f: Flag| flag_index(f) < i && value_of(fin, f) is Some ==> allowed(c, f),
        decreases FLAG_COUNT - i,
    {
        let f = flags[i];
        assert(flag_index(f) == i);
        let present = st.values[i].is_some();
        let ok = match c {
            CommandKind::Scan => f == Flag::Output || f == Flag::Techniques || f == Flag::Strategy || f == Flag::OutputFile,
            CommandKind::Test => f == Flag::Output || f == Flag::Techniques,
            CommandKind::List => f == Flag::Output || f == Flag::Category,
            CommandKind::Exploit => f == Flag::Output || f == Flag::Techniques || f == Flag::Strategy
                || f == Flag::OutputFile || f == Flag::MaxTests,
            _ => f == Flag::Output,
        };
        assert(fin.values[i as int] == optv(st.values@[i as int]));
        assert(ok == allowed(c, f));
        if present && !ok {
            assert(value_of(fin, f) is Some);
            assert(!args_ok(fin));
            return Err(BypsError::Usage("option not taken by this command".to_owned()));
        }
        i = i + 1;
    }
    let max_tests: usize = match st.take_value(Flag::MaxTests) {
        Some(m) => match parse_decimal(&m) {
            Some(n) => n,
            None => {
                return Err(BypsError::Usage("max-tests is not a count".to_owned()));
            },
        },
        None => DEFAULT_MAX_TESTS,
    };
    let output = value_or(&st, Flag::Output, "terminal");
    let url = match &st.url {
        Some(u) => string_of(u),
        None => String::new(),
    };
    let command = match c {
        CommandKind::Scan => Commands::Scan {
            url,
            techniques: value_or(&st, Flag::Techniques, "all"),
            strategy: value_or(&st, Flag::Strategy, "balanced"),
            output_file: opt_string(st.take_value(Flag::OutputFile)),
        },
        CommandKind::Test => {
            let t = match st.take_value(Flag::Techniques) {
                Some(t) => string_of(&t),
                None => {
                    return Err(BypsError::Usage("test needs a technique".to_owned()));
                },
            };
            Commands::Test { url, technique: t }
        },
        CommandKind::Detect => Commands::Detect { url },
        CommandKind::List => Commands::List { category: opt_string(st.take_value(Flag::Category)) },
        CommandKind::Exploit => Commands::Exploit {
            url,
            techniques: value_or(&st, Flag::Techniques, "all"),
            strategy: value_or(&st, Flag::Strategy, "balanced"),
            output_file: opt_string(st.take_value(Flag::OutputFile)),
            max_tests,
        },
        CommandKind::Wizard => Commands::Wizard {},
        CommandKind::Update => Commands::Update {},
    };
    Ok(Cli { command, verbose: st.verbose, output })
}

} // verus!
