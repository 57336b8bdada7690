//! The command line of the benchmark.

use crate::text::{
    chars_of, decimal, law_decimals_are_read_back, parse_unsigned, same_text, unsigned_value,
};
use vstd::prelude::*;

verus! {

/// What the benchmark is asked to do.
#[derive(Debug, PartialEq, Eq)]
pub struct BenchArgs {
    /// The address of the agent.
    pub agent: String,
    /// The address of the echo server.
    pub target: String,
    /// How much to push, in MiB.
    pub total_mib: usize,
    /// The size of a chunk, in KiB.
    pub chunk_kib: usize,
    /// The number of connections.
    pub conns: usize,
    /// How much may be sent but not yet echoed, in KiB.
    pub window_kib: usize,
}

pub struct BenchArgsView {
    pub agent: Seq<char>,
    pub target: Seq<char>,
    pub total_mib: usize,
    pub chunk_kib: usize,
    pub conns: usize,
    pub window_kib: usize,
}

impl View for BenchArgs {
    type V = BenchArgsView;

    open spec fn view(&self) -> BenchArgsView {
        BenchArgsView {
            agent: self.agent@,
            target: self.target@,
            total_mib: self.total_mib,
            chunk_kib: self.chunk_kib,
            conns: self.conns,
            window_kib: self.window_kib,
        }
    }
}

/// What is wrong with a command line.
#[derive(Debug, PartialEq, Eq)]
pub enum ArgsError {
    /// The last argument lacks its value.
    MissingValue,
    /// A value is not a number, or not an address; holds what is bad.
    BadValue(&'static str),
    UnknownArgument(String),
}

pub enum ArgsErrorView {
    MissingValue,
    BadValue(Seq<char>),
    UnknownArgument(Seq<char>),
}

impl View for ArgsError {
    type V = ArgsErrorView;

    open spec fn view(&self) -> ArgsErrorView {
        match self {
            ArgsError::MissingValue => ArgsErrorView::MissingValue,
            ArgsError::BadValue(what) => ArgsErrorView::BadValue(what@),
            ArgsError::UnknownArgument(arg) => ArgsErrorView::UnknownArgument(arg@),
        }
    }
}

impl ArgsError {
    pub fn message(&self) -> (r: String)
        ensures
            r@ == match self@ {
                ArgsErrorView::MissingValue => "missing value for argument"@,
                ArgsErrorView::BadValue(what) => "bad "@ + what,
                ArgsErrorView::UnknownArgument(arg) => "unknown argument: "@ + arg,
            },
    {
        match self {
            ArgsError::MissingValue => "missing value for argument".to_owned(),
            ArgsError::BadValue(what) => {
                let mut text = "bad ".to_owned();
                text.append(what);
                text
            },
            ArgsError::UnknownArgument(arg) => {
                let mut text = "unknown argument: ".to_owned();
                text.append(arg.as_str());
                text
            },
        }
    }
}

/// What is done where nothing else is asked for.
pub open spec fn default_args() -> BenchArgsView {
    BenchArgsView {
        agent: "127.0.0.1:61337"@,
        target: "127.0.0.1:7777"@,
        total_mib: 1024,
        chunk_kib: 64,
        conns: 4,
        window_kib: 256,
    }
}

/// The texts of a list of arguments.
pub open spec fn texts(args: Seq<String>) -> Seq<Seq<char>> {
    args.map_values(|a: String| a@)
}

/// Sets what one argument and its value set. `is_address` says whether the value is the text
/// of a socket address.
pub open spec fn set_arg(
    args: BenchArgsView,
    arg: Seq<char>,
    value: Seq<char>,
    is_address: bool,
) -> Result<BenchArgsView, ArgsErrorView> {
    let number = unsigned_value(value, usize::MAX as nat);
    if arg == "--agent"@ {
        if is_address {
            Ok(BenchArgsView { agent: value, ..args })
        } else {
            Err(ArgsErrorView::BadValue("agent address"@))
        }
    } else if arg == "--target"@ {
        if is_address {
            Ok(BenchArgsView { target: value, ..args })
        } else {
            Err(ArgsErrorView::BadValue("target address"@))
        }
    } else if arg == "--total-mib"@ {
        match number {
            Some(n) => Ok(BenchArgsView { total_mib: n as usize, ..args }),
            None => Err(ArgsErrorView::BadValue("total"@)),
        }
    } else if arg == "--chunk-kib"@ {
        match number {
            Some(n) => Ok(BenchArgsView { chunk_kib: n as usize, ..args }),
            None => Err(ArgsErrorView::BadValue("chunk size"@)),
        }
    } else if arg == "--conns"@ {
        match number {
            Some(n) => Ok(BenchArgsView { conns: n as usize, ..args }),
            None => Err(ArgsErrorView::BadValue("connection count"@)),
        }
    } else {
        match number {
            Some(n) => Ok(BenchArgsView { window_kib: n as usize, ..args }),
            None => Err(ArgsErrorView::BadValue("window size"@)),
        }
    }
}

pub open spec fn known_arg(arg: Seq<char>) -> bool {
    ||| arg == "--agent"@
    ||| arg == "--target"@
    ||| arg == "--total-mib"@
    ||| arg == "--chunk-kib"@
    ||| arg == "--conns"@
    ||| arg == "--window-kib"@
}

/// Reads a command line, from left to right: each argument is followed by its value, and a
/// later one counts more than an earlier one. `addresses` says which of the words are socket
/// addresses.
pub open spec fn read_args(
    args: BenchArgsView,
    line: Seq<Seq<char>>,
    addresses: Seq<bool>,
) -> Result<BenchArgsView, ArgsErrorView>
    decreases line.len(),
{
    if line.len() == 0 {
        Ok(args)
    } else if !known_arg(line[0]) {
        Err(ArgsErrorView::UnknownArgument(line[0]))
    } else if line.len() == 1 {
        Err(ArgsErrorView::MissingValue)
    } else {
        match set_arg(args, line[0], line[1], addresses[1]) {
            Ok(args) => read_args(args, line.skip(2), addresses.skip(2)),
            Err(error) => Err(error),
        }
    }
}

pub open spec fn args_view(r: Result<BenchArgs, ArgsError>) -> Result<
    BenchArgsView,
    ArgsErrorView,
> {
    match r {
        Ok(args) => Ok(args@),
        Err(error) => Err(error@),
    }
}

fn number(value: &str) -> (r: Option<usize>)
    ensures
        match r {
            Some(n) => unsigned_value(value@, usize::MAX as nat) == Some(n as nat),
            None => unsigned_value(value@, usize::MAX as nat) is None,
        },
{
    match parse_unsigned(chars_of(value).as_slice(), usize::MAX as u64) {
        Some(n) => Some(n as usize),
        None => None,
    }
}

/// Reads a command line. `addresses` says for each of its words whether it is the text of a
/// socket address.
pub fn parse_args(line: &Vec<String>, addresses: &Vec<bool>) -> (r: Result<BenchArgs, ArgsError>)
    requires
        addresses@.len() == line@.len(),
    ensures
        args_view(r) == read_args(default_args(), texts(line@), addresses@),
{
    let mut parsed = BenchArgs {
        agent: "127.0.0.1:61337".to_owned(),
        target: "127.0.0.1:7777".to_owned(),
        total_mib: 1024,
        chunk_kib: 64,
        conns: 4,
        window_kib: 256,
    };
    let mut i: usize = 0;
    assert(texts(line@).skip(0) =~= texts(line@));
    assert(addresses@.skip(0) =~= addresses@);
    while i < line.len()
        invariant
            i <= line.len(),
            addresses@.len() == line@.len(),
            read_args(default_args(), texts(line@), addresses@) == read_args(
                parsed@,
                texts(line@).skip(i as int),
                addresses@.skip(i as int),
            ),
        decreases line.len() - i,
    {
        let ghost rest = texts(line@).skip(i as int);
        assert(rest[0] == line@[i as int]@);
        let arg = line[i].as_str();
        if !is_known(arg) {
            return Err(ArgsError::UnknownArgument(line[i].clone()));
        }
        if i + 1 >= line.len() {
            return Err(ArgsError::MissingValue);
        }
        assert(rest[1] == line@[i + 1]@);
        assert(addresses@.skip(i as int)[1] == addresses@[i + 1]);
        set(&mut parsed, arg, line[i + 1].as_str(), addresses[i + 1])?;
        assert(rest.skip(2) =~= texts(line@).skip(i + 2));
        assert(addresses@.skip(i as int).skip(2) =~= addresses@.skip(i + 2));
        i = i + 2;
    }
    Ok(parsed)
}

fn is_known(arg: &str) -> (r: bool)
    ensures
        r == known_arg(arg@),
{
    same_text(arg, "--agent") || same_text(arg, "--target") || same_text(arg, "--total-mib")
        || same_text(arg, "--chunk-kib") || same_text(arg, "--conns") || same_text(
        arg,
        "--window-kib",
    )
}

fn set(args: &mut BenchArgs, arg: &str, value: &str, is_address: bool) -> (r: Result<
    (),
    ArgsError,
>)
    requires
        known_arg(arg@),
    ensures
        match r {
            Ok(_) => set_arg(old(args)@, arg@, value@, is_address) == Ok::<
                BenchArgsView,
                ArgsErrorView,
            >(final(args)@),
            Err(error) => set_arg(old(args)@, arg@, value@, is_address) == Err::<
                BenchArgsView,
                ArgsErrorView,
            >(error@),
        },
{
    if same_text(arg, "--agent") {
        if !is_address {
            return Err(ArgsError::BadValue("agent address"));
        }
        args.agent = value.to_owned();
        return Ok(());
    }
    if same_text(arg, "--target") {
        if !is_address {
            return Err(ArgsError::BadValue("target address"));
        }
        args.target = value.to_owned();
        return Ok(());
    }
    let parsed = number(value);
    if same_text(arg, "--total-mib") {
        match parsed {
            Some(n) => {
                args.total_mib = n;
                Ok(())
            },
            None => Err(ArgsError::BadValue("total")),
        }
    } else if same_text(arg, "--chunk-kib") {
        match parsed {
            Some(n) => {
                args.chunk_kib = n;
                Ok(())
            },
            None => Err(ArgsError::BadValue("chunk size")),
        }
    } else if same_text(arg, "--conns") {
        match parsed {
            Some(n) => {
                args.conns = n;
                Ok(())
            },
            None => Err(ArgsError::BadValue("connection count")),
        }
    } else {
        match parsed {
            Some(n) => {
                args.window_kib = n;
                Ok(())
            },
            None => Err(ArgsError::BadValue("window size")),
        }
    }
}

/// Of two values for the same argument, the later one counts.
pub proof fn law_the_last_value_counts(
    args: BenchArgsView,
    arg: Seq<char>,
    arg_is_address: bool,
    first: (Seq<char>, bool),
    second: (Seq<char>, bool),
    rest: Seq<Seq<char>>,
    addresses: Seq<bool>,
)
    requires
        known_arg(arg),
        set_arg(args, arg, first.0, first.1) is Ok,
    ensures
        read_args(
            args,
            seq![arg, first.0, arg, second.0] + rest,
            seq![arg_is_address, first.1, arg_is_address, second.1] + addresses,
        ) == read_args(args, seq![arg, second.0] + rest, seq![arg_is_address, second.1] + addresses),
{
    let long = seq![arg, first.0, arg, second.0] + rest;
    let short = seq![arg, second.0] + rest;
    let long_addresses = seq![arg_is_address, first.1, arg_is_address, second.1] + addresses;
    let short_addresses = seq![arg_is_address, second.1] + addresses;
    assert(long.skip(2) =~= short);
    assert(long_addresses.skip(2) =~= short_addresses);
    let after = set_arg(args, arg, first.0, first.1)->Ok_0;
    assert(read_args(args, long, long_addresses) == read_args(after, short, short_addresses));
    assert(set_arg(after, arg, second.0, second.1) == set_arg(args, arg, second.0, second.1));
}

/// Every argument sets what it is named for and nothing else, and a number that is given is
/// the number that is set.
pub proof fn law_arguments_set_what_they_are_named_for(
    args: BenchArgsView,
    n: usize,
    address: Seq<char>,
    is_address: bool,
)
    ensures
        set_arg(args, "--agent"@, address, true) == Ok::<BenchArgsView, ArgsErrorView>(
            BenchArgsView { agent: address, ..args },
        ),
        set_arg(args, "--target"@, address, true) == Ok::<BenchArgsView, ArgsErrorView>(
            BenchArgsView { target: address, ..args },
        ),
        set_arg(args, "--total-mib"@, decimal(n as nat), is_address) == Ok::<
            BenchArgsView,
            ArgsErrorView,
        >(BenchArgsView { total_mib: n, ..args }),
        set_arg(args, "--chunk-kib"@, decimal(n as nat), is_address) == Ok::<
            BenchArgsView,
            ArgsErrorView,
        >(BenchArgsView { chunk_kib: n, ..args }),
        set_arg(args, "--conns"@, decimal(n as nat), is_address) == Ok::<
            BenchArgsView,
            ArgsErrorView,
        >(BenchArgsView { conns: n, ..args }),
        set_arg(args, "--window-kib"@, decimal(n as nat), is_address) == Ok::<
            BenchArgsView,
            ArgsErrorView,
        >(BenchArgsView { window_kib: n, ..args }),
{
    lemma_arguments_differ();
    law_decimals_are_read_back(n as nat, usize::MAX as nat);
}

/// A value that is not what its argument takes is told by what it should have been: a number,
/// or an address. Numbers that cannot be held are no numbers.
pub proof fn law_bad_values_are_told(
    args: BenchArgsView,
    value: Seq<char>,
    is_address: bool,
    too_large: nat,
)
    requires
        too_large > usize::MAX,
        unsigned_value(value, usize::MAX as nat) is None || value == decimal(too_large),
    ensures
        ({
            let bad = |arg: Seq<char>, what: Seq<char>|
                set_arg(args, arg, value, is_address) == Err::<BenchArgsView, ArgsErrorView>(
                    ArgsErrorView::BadValue(what),
                );
            &&& !is_address ==> bad("--agent"@, "agent address"@)
            &&& !is_address ==> bad("--target"@, "target address"@)
            &&& bad("--total-mib"@, "total"@)
            &&& bad("--chunk-kib"@, "chunk size"@)
            &&& bad("--conns"@, "connection count"@)
            &&& bad("--window-kib"@, "window size"@)
        }),
{
    lemma_arguments_differ();
    law_decimals_are_read_back(too_large, usize::MAX as nat);
}

proof fn lemma_arguments_differ()
    ensures
        "--agent"@ != "--conns"@,
        "--total-mib"@ != "--chunk-kib"@,
        "--agent"@.len() == 7 && "--conns"@.len() == 7,
        "--target"@.len() == 8,
        "--total-mib"@.len() == 11 && "--chunk-kib"@.len() == 11,
        "--window-kib"@.len() == 12,
{
    reveal_strlit("--agent");
    reveal_strlit("--conns");
    reveal_strlit("--target");
    reveal_strlit("--total-mib");
    reveal_strlit("--chunk-kib");
    reveal_strlit("--window-kib");
    assert("--agent"@[2] != "--conns"@[2]);
    assert("--total-mib"@[2] != "--chunk-kib"@[2]);
}

/// A command line is read in turn: what it sets is what its first argument and value set,
/// and then what the rest of it sets. The first thing that is wrong with it is told.
pub proof fn law_arguments_are_read_in_turn(
    args: BenchArgsView,
    line: Seq<Seq<char>>,
    addresses: Seq<bool>,
    more: Seq<Seq<char>>,
    more_addresses: Seq<bool>,
)
    requires
        line.len() == addresses.len(),
        line.len() % 2 == 0,
    ensures
        read_args(args, line + more, addresses + more_addresses) == match read_args(
            args,
            line,
            addresses,
        ) {
            Ok(before) => read_args(before, more, more_addresses),
            Err(error) => Err(error),
        },
        read_args(args, Seq::empty(), Seq::empty()) == Ok::<BenchArgsView, ArgsErrorView>(args),
        more.len() == 1 && known_arg(more[0]) ==> read_args(args, more, more_addresses) == Err::<
            BenchArgsView,
            ArgsErrorView,
        >(ArgsErrorView::MissingValue),
        more.len() > 0 && !known_arg(more[0]) ==> read_args(args, more, more_addresses) == Err::<
            BenchArgsView,
            ArgsErrorView,
        >(ArgsErrorView::UnknownArgument(more[0])),
        more.len() == 2 && known_arg(more[0]) ==> read_args(args, more, more_addresses) == set_arg(
            args,
            more[0],
            more[1],
            more_addresses[1],
        ),
    decreases line.len(),
{
    if more.len() == 2 && known_arg(more[0]) {
        assert(more.skip(2) =~= Seq::empty());
        if let Ok(after) = set_arg(args, more[0], more[1], more_addresses[1]) {
            assert(read_args(after, more.skip(2), more_addresses.skip(2)) == Ok::<
                BenchArgsView,
                ArgsErrorView,
            >(after));
        }
    }
    if line.len() == 0 {
        assert(line + more =~= more);
        assert(addresses + more_addresses =~= more_addresses);
    } else {
        assert(line.len() >= 2);
        let whole = line + more;
        let whole_addresses = addresses + more_addresses;
        assert(whole[0] == line[0] && whole[1] == line[1]);
        assert(whole_addresses[1] == addresses[1]);
        assert(whole.skip(2) =~= line.skip(2) + more);
        assert(whole_addresses.skip(2) =~= addresses.skip(2) + more_addresses);
        if known_arg(line[0]) {
            if let Ok(after) = set_arg(args, line[0], line[1], addresses[1]) {
                law_arguments_are_read_in_turn(
                    after,
                    line.skip(2),
                    addresses.skip(2),
                    more,
                    more_addresses,
                );
            }
        }
    }
}

/// What is done where nothing is asked for, and what arguments there are.
pub proof fn law_nothing_is_asked_for_by_default(arg: Seq<char>)
    ensures
        default_args().total_mib == 1024 && default_args().chunk_kib == 64 && default_args().conns
            == 4 && default_args().window_kib == 256,
        default_args().agent == "127.0.0.1:61337"@,
        default_args().target == "127.0.0.1:7777"@,
        known_arg(arg) <==> seq![
            "--agent"@,
            "--target"@,
            "--total-mib"@,
            "--chunk-kib"@,
            "--conns"@,
            "--window-kib"@,
        ].contains(arg),
{
    let all = seq![
        "--agent"@,
        "--target"@,
        "--total-mib"@,
        "--chunk-kib"@,
        "--conns"@,
        "--window-kib"@,
    ];
    if known_arg(arg) {
        assert(all[0] == arg || all[1] == arg || all[2] == arg || all[3] == arg || all[4] == arg
            || all[5] == arg);
    }
}

/// What is wrong with a command line is told: an argument that is not known by its name, and
/// a bad value by what it should have been. No two of these texts are the same.
pub proof fn law_what_is_wrong_is_told(a: ArgsError, of_a: String, b: ArgsError, of_b: String)
    requires
        call_ensures(ArgsError::message, (&a,), of_a),
        call_ensures(ArgsError::message, (&b,), of_b),
    ensures
        a matches ArgsError::UnknownArgument(arg) ==> of_a@ == "unknown argument: "@ + arg@,
        a matches ArgsError::BadValue(what) ==> of_a@ == "bad "@ + what@,
        of_a@ == of_b@ <==> a@ == b@,
{
    reveal_strlit("unknown argument: ");
    reveal_strlit("bad ");
    reveal_strlit("missing value for argument");
    assert(of_a@[0] == 'u' <==> a is UnknownArgument);
    assert(of_a@[0] == 'b' <==> a is BadValue);
    assert(of_b@[0] == 'u' <==> b is UnknownArgument);
    assert(of_b@[0] == 'b' <==> b is BadValue);
    match (a, b) {
        (ArgsError::UnknownArgument(x), ArgsError::UnknownArgument(y)) => {
            assert(of_a@.skip(18) =~= x@ && of_b@.skip(18) =~= y@);
        },
        (ArgsError::BadValue(x), ArgsError::BadValue(y)) => {
            assert(of_a@.skip(4) =~= x@ && of_b@.skip(4) =~= y@);
        },
        _ => {},
    }
}

} // verus!
