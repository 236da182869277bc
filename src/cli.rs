use crate::injections::{injection_name, Injection};
use crate::text::{seq_starts_with, str_equal, str_starts_with};
use vstd::prelude::*;

verus! {

/// The source and the optional destination of a run.
#[derive(Clone, Debug, PartialEq, Eq)]
pub struct GlobalOpts {
    pub source: String,
    pub destination: Option<String>,
}

/// What a run does.
#[derive(Clone, Debug, PartialEq, Eq)]
pub enum Action {
    /// Injects a fault into an exported function and saves the module.
    Inject {
        injection: Injection,
        function: String,
        size: Option<i16>,
        global_opts: GlobalOpts,
        compressed: bool,
        hexified: bool,
    },
    /// Saves the module in another encoding.
    Convert { global_opts: GlobalOpts, raw: bool, compressed: bool, hexified: bool },
}

/// A parsed command line.
#[derive(Clone, Debug, PartialEq, Eq)]
pub struct Cli {
    pub action: Action,
}

/// Why a command line was refused.
#[derive(Clone, Copy, Debug, PartialEq, Eq, Structural)]
pub enum ErrorKind {
    /// No subcommand was given.
    MissingSubcommand,
    /// The subcommand is neither `inject` nor `convert`.
    InvalidSubcommand,
    /// An option the subcommand does not have, or one positional too many.
    UnknownArgument,
    /// An unknown fault name, or `--size` without a value.
    InvalidValue,
    /// A size that is not a 16-bit integer.
    ValueValidation,
    /// A required positional, or the size of a no-op injection, is missing.
    MissingRequiredArgument,
    /// An option given twice, or `--raw` with `--compressed` or `--hexified`.
    ArgumentConflict,
}

/// A refused command line.
#[derive(Clone, Copy, Debug, PartialEq, Eq, Structural)]
pub struct CliError {
    pub kind: ErrorKind,
}

impl CliError {
    /// Why the command line was refused.
    pub fn kind(&self) -> (r: ErrorKind)
        ensures
            r == self.kind,
    {
        self.kind
    }
}

/// The two subcommands.
#[derive(Clone, Copy, Debug, PartialEq, Eq, Structural)]
pub enum Subcommand {
    Inject,
    Convert,
}

/// A parsed command line, with text as character sequences.
pub enum ActionView {
    Inject {
        injection: Injection,
        function: Seq<char>,
        size: Option<i16>,
        source: Seq<char>,
        destination: Option<Seq<char>>,
        compressed: bool,
        hexified: bool,
    },
    Convert {
        source: Seq<char>,
        destination: Option<Seq<char>>,
        raw: bool,
        compressed: bool,
        hexified: bool,
    },
}

/// The characters of an optional string.
pub open spec fn opt_view(o: Option<String>) -> Option<Seq<char>> {
    match o {
        Some(s) => Some(s@),
        None => None,
    }
}

impl View for Cli {
    type V = ActionView;

    open spec fn view(&self) -> ActionView {
        match self.action {
            Action::Inject { injection, function, size, global_opts, compressed, hexified } =>
                ActionView::Inject {
                injection,
                function: function@,
                size,
                source: global_opts.source@,
                destination: opt_view(global_opts.destination),
                compressed,
                hexified,
            },
            Action::Convert { global_opts, raw, compressed, hexified } => ActionView::Convert {
                source: global_opts.source@,
                destination: opt_view(global_opts.destination),
                raw,
                compressed,
                hexified,
            },
        }
    }
}

/// What has been read of the arguments after the subcommand.
pub struct ParseState {
    pub positionals: Seq<Seq<char>>,
    pub injection: Option<Injection>,
    pub size: Option<i16>,
    pub size_pending: bool,
    pub compressed: bool,
    pub hexified: bool,
    pub raw: bool,
    pub escaped: bool,
    pub error: Option<ErrorKind>,
}

/// The state before any argument after the subcommand.
pub open spec fn initial_state() -> ParseState {
    ParseState {
        positionals: Seq::empty(),
        injection: None,
        size: None,
        size_pending: false,
        compressed: false,
        hexified: false,
        raw: false,
        escaped: false,
        error: None,
    }
}

/// A decimal digit.
pub open spec fn is_digit(c: char) -> bool {
    '0' <= c <= '9'
}

/// The value of a sequence of decimal digits.
pub open spec fn decimal_value(d: Seq<char>) -> int
    decreases d.len(),
{
    if d.len() == 0 {
        0
    } else {
        decimal_value(d.drop_last()) * 10 + (d.last() as int - '0' as int)
    }
}

/// Where the digits of a number start: after an optional sign.
pub open spec fn digits_start(s: Seq<char>) -> int {
    if s.len() > 0 && (s[0] == '-' || s[0] == '+') {
        1
    } else {
        0
    }
}

/// The 16-bit integer that `s` spells in decimal, with an optional sign.
pub open spec fn parse_i16_spec(s: Seq<char>) -> Option<i16> {
    let d = s.skip(digits_start(s));
    let v = if s.len() > 0 && s[0] == '-' {
        -decimal_value(d)
    } else {
        decimal_value(d)
    };
    if d.len() == 0 || !(forall|k: int| 0 <= k < d.len() ==> is_digit(#[trigger] d[k])) {
        None
    } else if v < i16::MIN || v > i16::MAX {
        None
    } else {
        Some(v as i16)
    }
}

/// The fault that `s` names on the command line.
pub open spec fn injection_named(s: Seq<char>) -> Option<Injection> {
    if s == injection_name(Injection::InfiniteLoop) {
        Some(Injection::InfiniteLoop)
    } else if s == injection_name(Injection::BadReturnValue) {
        Some(Injection::BadReturnValue)
    } else if s == injection_name(Injection::StackOverflow) {
        Some(Injection::StackOverflow)
    } else if s == injection_name(Injection::Noops) {
        Some(Injection::Noops)
    } else if s == injection_name(Injection::HeapOverflow) {
        Some(Injection::HeapOverflow)
    } else {
        None
    }
}

/// The number of positionals a subcommand takes.
pub open spec fn max_positionals(cmd: Subcommand) -> nat {
    match cmd {
        Subcommand::Inject => 4,
        Subcommand::Convert => 2,
    }
}

/// `st` with `error` recorded.
pub open spec fn failed(st: ParseState, e: ErrorKind) -> ParseState {
    ParseState { error: Some(e), ..st }
}

/// `st` after reading `v` as the size.
pub open spec fn with_size(st: ParseState, v: Seq<char>) -> ParseState {
    match parse_i16_spec(v) {
        Some(n) => ParseState { size: Some(n), size_pending: false, ..st },
        None => failed(st, ErrorKind::ValueValidation),
    }
}

/// `st` after reading argument `tok` of subcommand `cmd`.
pub open spec fn step(cmd: Subcommand, st: ParseState, tok: Seq<char>) -> ParseState {
    let opt = !st.escaped;
    if st.error is Some {
        st
    } else if st.size_pending {
        with_size(st, tok)
    } else if opt && tok == "--"@ {
        ParseState { escaped: true, ..st }
    } else if opt && tok == "--compressed"@ {
        if st.compressed {
            failed(st, ErrorKind::ArgumentConflict)
        } else {
            ParseState { compressed: true, ..st }
        }
    } else if opt && tok == "--hexified"@ {
        if st.hexified {
            failed(st, ErrorKind::ArgumentConflict)
        } else {
            ParseState { hexified: true, ..st }
        }
    } else if opt && cmd is Convert && tok == "--raw"@ {
        if st.raw {
            failed(st, ErrorKind::ArgumentConflict)
        } else {
            ParseState { raw: true, ..st }
        }
    } else if opt && cmd is Inject && tok == "--size"@ {
        if st.size is Some {
            failed(st, ErrorKind::ArgumentConflict)
        } else {
            ParseState { size_pending: true, ..st }
        }
    } else if opt && cmd is Inject && seq_starts_with(tok, "--size="@) {
        if st.size is Some {
            failed(st, ErrorKind::ArgumentConflict)
        } else {
            with_size(st, tok.skip("--size="@.len() as int))
        }
    } else if opt && tok.len() > 1 && tok[0] == '-' {
        failed(st, ErrorKind::UnknownArgument)
    } else if st.positionals.len() >= max_positionals(cmd) {
        failed(st, ErrorKind::UnknownArgument)
    } else if cmd is Inject && st.positionals.len() == 0 {
        match injection_named(tok) {
            Some(i) => ParseState {
                injection: Some(i),
                positionals: st.positionals.push(tok),
                ..st
            },
            None => failed(st, ErrorKind::InvalidValue),
        }
    } else {
        ParseState { positionals: st.positionals.push(tok), ..st }
    }
}

/// The state after reading `args[i..]`, from state `st`.
pub open spec fn run_from(cmd: Subcommand, args: Seq<Seq<char>>, i: int, st: ParseState) -> ParseState
    decreases args.len() - i,
{
    if i < 0 || i >= args.len() {
        st
    } else {
        run_from(cmd, args, i + 1, step(cmd, st, args[i]))
    }
}

/// The optional positional at `i`.
pub open spec fn optional_at(p: Seq<Seq<char>>, i: int) -> Option<Seq<char>> {
    if 0 <= i < p.len() {
        Some(p[i])
    } else {
        None
    }
}

/// The command line once every argument has been read, or why it is refused:
/// option conflicts are found before missing arguments.
pub open spec fn finish(cmd: Subcommand, st: ParseState) -> Result<ActionView, ErrorKind> {
    if st.error is Some {
        Err(st.error->0)
    } else if st.size_pending {
        Err(ErrorKind::InvalidValue)
    } else {
        match cmd {
            Subcommand::Inject => if st.positionals.len() < 3 || st.injection is None {
                Err(ErrorKind::MissingRequiredArgument)
            } else if st.injection == Some(Injection::Noops) && st.size is None {
                Err(ErrorKind::MissingRequiredArgument)
            } else {
                Ok(
                    ActionView::Inject {
                        injection: st.injection->0,
                        function: st.positionals[1],
                        size: st.size,
                        source: st.positionals[2],
                        destination: optional_at(st.positionals, 3),
                        compressed: st.compressed,
                        hexified: st.hexified,
                    },
                )
            },
            Subcommand::Convert => if st.raw && (st.compressed || st.hexified) {
                Err(ErrorKind::ArgumentConflict)
            } else if st.positionals.len() < 1 {
                Err(ErrorKind::MissingRequiredArgument)
            } else {
                Ok(
                    ActionView::Convert {
                        source: st.positionals[0],
                        destination: optional_at(st.positionals, 1),
                        raw: st.raw || !(st.compressed || st.hexified),
                        compressed: st.compressed,
                        hexified: st.hexified,
                    },
                )
            },
        }
    }
}

/// The command line that `args` spells, the first being the program's name,
/// or why it is refused.
pub open spec fn parse_args(args: Seq<Seq<char>>) -> Result<ActionView, ErrorKind> {
    if args.len() < 2 {
        Err(ErrorKind::MissingSubcommand)
    } else if args[1] == "inject"@ {
        finish(Subcommand::Inject, run_from(Subcommand::Inject, args, 2, initial_state()))
    } else if args[1] == "convert"@ {
        finish(Subcommand::Convert, run_from(Subcommand::Convert, args, 2, initial_state()))
    } else if args[1].len() > 0 && args[1][0] == '-' {
        Err(ErrorKind::UnknownArgument)
    } else {
        Err(ErrorKind::InvalidSubcommand)
    }
}

/// The characters of each argument.
pub open spec fn args_view(args: Seq<&str>) -> Seq<Seq<char>> {
    args.map_values(|a: &str| a@)
}

/// The default name of the output file for `action`, made from the stem of
/// the source's file name.
pub open spec fn default_file_name_spec(action: ActionView, stem: Seq<char>) -> Seq<char> {
    match action {
        ActionView::Inject { injection, compressed, hexified, .. } => {
            let a = injection_name(injection) + "-"@ + stem + ".wasm"@;
            let b = if compressed {
                "compressed-"@ + a
            } else {
                a
            };
            if hexified {
                "hexified-"@ + b + ".hex"@
            } else {
                b
            }
        },
        ActionView::Convert { raw, compressed, hexified, .. } => {
            let a = if raw {
                "raw-"@ + stem + ".wasm"@
            } else {
                stem
            };
            let b = if compressed {
                "compressed-"@ + a
            } else {
                a
            };
            if hexified {
                "hexified-"@ + b + ".hex"@
            } else {
                b
            }
        },
    }
}

impl Cli {
    /// The default name of the output file, made from `file_name`, the stem of
    /// the source's file name: the fault, or `raw`, then the encodings applied.
    pub fn default_file_name(&self, file_name: &str) -> (r: String)
        ensures
            r@ == default_file_name_spec(self@, file_name@),
    {
        let (a, compressed, hexified) = match &self.action {
            Action::Inject { injection, compressed, hexified, .. } => {
                let a = String::from_str(injection.name()).concat("-").concat(file_name).concat(
                    ".wasm",
                );
                (a, *compressed, *hexified)
            },
            Action::Convert { raw, compressed, hexified, .. } => {
                let a = if *raw {
                    String::from_str("raw-").concat(file_name).concat(".wasm")
                } else {
                    String::from_str(file_name)
                };
                (a, *compressed, *hexified)
            },
        };
        let b = if compressed {
            String::from_str("compressed-").concat(a.as_str())
        } else {
            a
        };
        if hexified {
            String::from_str("hexified-").concat(b.as_str()).concat(".hex")
        } else {
            b
        }
    }
}

/// What has been read of the arguments after the subcommand.
struct ArgState {
    positionals: Vec<String>,
    injection: Option<Injection>,
    size: Option<i16>,
    size_pending: bool,
    compressed: bool,
    hexified: bool,
    raw: bool,
    escaped: bool,
    error: Option<ErrorKind>,
}

impl View for ArgState {
    type V = ParseState;

    closed spec fn view(&self) -> ParseState {
        ParseState {
            positionals: self.positionals@.map_values(|s: String| s@),
            injection: self.injection,
            size: self.size,
            size_pending: self.size_pending,
            compressed: self.compressed,
            hexified: self.hexified,
            raw: self.raw,
            escaped: self.escaped,
            error: self.error,
        }
    }
}

/// Reads a 16-bit integer in decimal, with an optional sign.
pub fn parse_i16(s: &str) -> (r: Option<i16>)
    ensures
        r == parse_i16_spec(s@),
{
    let n = s.unicode_len();
    let neg = n > 0 && s.get_char(0) == '-';
    let start: usize = if n > 0 && (s.get_char(0) == '-' || s.get_char(0) == '+') {
        1
    } else {
        0
    };
    assert(start == digits_start(s@));
    let ghost d = s@.skip(start as int);
    if start == n {
        return None;
    }
    let mut acc: i64 = 0;
    let mut big = false;
    let mut i: usize = start;
    while i < n
        invariant
            n == s@.len(),
            start <= i <= n,
            start == digits_start(s@),
            neg == (s@.len() > 0 && s@[0] == '-'),
            d == s@.skip(start as int),
            forall|k: int| 0 <= k < i - start ==> is_digit(#[trigger] d[k]),
            big ==> decimal_value(d.take(i - start)) > 32768,
            !big ==> acc == decimal_value(d.take(i - start)) && 0 <= acc <= 32768,
        decreases n - i,
    {
        let c = s.get_char(i);
        assert(d[i - start] == c);
        if c < '0' || c > '9' {
            assert(!is_digit(d[i - start]));
            assert(d.len() > 0);
            return None;
        }
        let ghost prev = d.take(i - start);
        assert(d.take(i - start + 1).drop_last() =~= prev);
        if !big {
            acc = acc * 10 + (c as i64 - '0' as i64);
            if acc > 32768 {
                big = true;
            }
        }
        i = i + 1;
    }
    assert(d.take(n - start) =~= d);
    if big {
        return None;
    }
    let v: i64 = if neg {
        -acc
    } else {
        acc
    };
    if v < -32768 || v > 32767 {
        None
    } else {
        Some(v as i16)
    }
}

impl Injection {
    /// The fault that `name` names on the command line.
    pub fn from_name(name: &str) -> (r: Option<Injection>)
        ensures
            r == injection_named(name@),
    {
        if str_equal(name, "infinite-loop") {
            Some(Injection::InfiniteLoop)
        } else if str_equal(name, "bad-return-value") {
            Some(Injection::BadReturnValue)
        } else if str_equal(name, "stack-overflow") {
            Some(Injection::StackOverflow)
        } else if str_equal(name, "noops") {
            Some(Injection::Noops)
        } else if str_equal(name, "heap-overflow") {
            Some(Injection::HeapOverflow)
        } else {
            None
        }
    }
}

/// Records the size spelled by `v`.
fn read_size(st: &mut ArgState, v: &str)
    ensures
        final(st)@ == with_size(old(st)@, v@),
{
    match parse_i16(v) {
        Some(n) => {
            st.size = Some(n);
            st.size_pending = false;
        },
        None => {
            st.error = Some(ErrorKind::ValueValidation);
        },
    }
}

/// Reads argument `tok` of subcommand `cmd`.
fn read_arg(cmd: Subcommand, st: &mut ArgState, tok: &str)
    ensures
        final(st)@ == step(cmd, old(st)@, tok@),
{
    let opt = !st.escaped;
    let n = tok.unicode_len();
    if st.error.is_some() {
    } else if st.size_pending {
        read_size(st, tok);
    } else if opt && str_equal(tok, "--") {
        st.escaped = true;
    } else if opt && str_equal(tok, "--compressed") {
        if st.compressed {
            st.error = Some(ErrorKind::ArgumentConflict);
        } else {
            st.compressed = true;
        }
    } else if opt && str_equal(tok, "--hexified") {
        if st.hexified {
            st.error = Some(ErrorKind::ArgumentConflict);
        } else {
            st.hexified = true;
        }
    } else if opt && cmd == Subcommand::Convert && str_equal(tok, "--raw") {
        if st.raw {
            st.error = Some(ErrorKind::ArgumentConflict);
        } else {
            st.raw = true;
        }
    } else if opt && cmd == Subcommand::Inject && str_equal(tok, "--size") {
        if st.size.is_some() {
            st.error = Some(ErrorKind::ArgumentConflict);
        } else {
            st.size_pending = true;
        }
    } else if opt && cmd == Subcommand::Inject && str_starts_with(tok, "--size=") {
        if st.size.is_some() {
            st.error = Some(ErrorKind::ArgumentConflict);
        } else {
            proof {
                reveal_strlit("--size=");
            }
            let v = tok.substring_char(7, n);
            assert(v@ =~= tok@.skip("--size="@.len() as int));
            read_size(st, v);
        }
    } else if opt && n > 1 && tok.get_char(0) == '-' {
        st.error = Some(ErrorKind::UnknownArgument);
    } else if (cmd == Subcommand::Inject && st.positionals.len() >= 4) || (cmd
        == Subcommand::Convert && st.positionals.len() >= 2) {
        st.error = Some(ErrorKind::UnknownArgument);
    } else if cmd == Subcommand::Inject && st.positionals.len() == 0 {
        match Injection::from_name(tok) {
            Some(i) => {
                st.injection = Some(i);
                st.positionals.push(String::from_str(tok));
                assert(st@.positionals =~= old(st)@.positionals.push(tok@));
            },
            None => {
                st.error = Some(ErrorKind::InvalidValue);
            },
        }
    } else {
        st.positionals.push(String::from_str(tok));
        assert(st@.positionals =~= old(st)@.positionals.push(tok@));
    }
}

/// The positional at `i`, if there is one.
fn optional_positional(p: &Vec<String>, i: usize) -> (r: Option<String>)
    ensures
        opt_view(r) == optional_at(p@.map_values(|s: String| s@), i as int),
{
    if i < p.len() {
        Some(String::from_str(p[i].as_str()))
    } else {
        None
    }
}

impl Cli {
    /// Parses a command line, the first argument being the program's name:
    /// `inject <injection> <function> <source> [destination]` with `--size`,
    /// `--compressed` and `--hexified`, or `convert <source> [destination]`
    /// with `--raw`, `--compressed` and `--hexified`.
    pub fn try_parse_from(args: &[&str]) -> (r: Result<Cli, CliError>)
        ensures
            match parse_args(args_view(args@)) {
                Ok(v) => r is Ok && r->Ok_0@ == v,
                Err(e) => r == Err::<Cli, CliError>(CliError { kind: e }),
            },
    {
        let ghost toks = args_view(args@);
        if args.len() < 2 {
            return Err(CliError { kind: ErrorKind::MissingSubcommand });
        }
        let sub = args[1];
        assert(toks[1] == sub@);
        let cmd = if str_equal(sub, "inject") {
            Subcommand::Inject
        } else if str_equal(sub, "convert") {
            Subcommand::Convert
        } else if sub.unicode_len() > 0 && sub.get_char(0) == '-' {
            return Err(CliError { kind: ErrorKind::UnknownArgument });
        } else {
            return Err(CliError { kind: ErrorKind::InvalidSubcommand });
        };
        let mut st = ArgState {
            positionals: Vec::new(),
            injection: None,
            size: None,
            size_pending: false,
            compressed: false,
            hexified: false,
            raw: false,
            escaped: false,
            error: None,
        };
        assert(st@.positionals =~= Seq::<Seq<char>>::empty());
        let mut i: usize = 2;
        while i < args.len()
            invariant
                2 <= i <= args@.len(),
                toks == args_view(args@),
                run_from(cmd, toks, 2, initial_state()) == run_from(cmd, toks, i as int, st@),
            decreases args.len() - i,
        {
            read_arg(cmd, &mut st, args[i]);
            i = i + 1;
        }
        let ghost fin = st@;
        if let Some(e) = st.error {
            return Err(CliError { kind: e });
        }
        if st.size_pending {
            return Err(CliError { kind: ErrorKind::InvalidValue });
        }
        let p = &st.positionals;
        match cmd {
            Subcommand::Inject => {
                if p.len() < 3 || st.injection.is_none() {
                    return Err(CliError { kind: ErrorKind::MissingRequiredArgument });
                }
                let injection = st.injection.unwrap();
                if injection == Injection::Noops && st.size.is_none() {
                    return Err(CliError { kind: ErrorKind::MissingRequiredArgument });
                }
                let destination = optional_positional(p, 3);
                Ok(
                    Cli {
                        action: Action::Inject {
                            injection,
                            function: String::from_str(p[1].as_str()),
                            size: st.size,
                            global_opts: GlobalOpts {
                                source: String::from_str(p[2].as_str()),
                                destination,
                            },
                            compressed: st.compressed,
                            hexified: st.hexified,
                        },
                    },
                )
            },
            Subcommand::Convert => {
                if st.raw && (st.compressed || st.hexified) {
                    return Err(CliError { kind: ErrorKind::ArgumentConflict });
                }
                if p.len() < 1 {
                    return Err(CliError { kind: ErrorKind::MissingRequiredArgument });
                }
                let destination = optional_positional(p, 1);
                Ok(
                    Cli {
                        action: Action::Convert {
                            global_opts: GlobalOpts {
                                source: String::from_str(p[0].as_str()),
                                destination,
                            },
                            raw: st.raw || !(st.compressed || st.hexified),
                            compressed: st.compressed,
                            hexified: st.hexified,
                        },
                    },
                )
            },
        }
    }
}

} // verus!
