//! Reading the `stage-checkpoints` command from its command-line words.
use vstd::prelude::*;
use vstd::string::StrSliceExecFns;

use crate::stage_checkpoints::{Command, SetArgs, StageArg, Subcommands};

verus! {

/// Why the command-line words do not form a command.
#[derive(Debug, Clone, Copy, PartialEq, Eq, Structural)]
pub enum ArgsError {
    /// No subcommand was given.
    MissingSubcommand,
    /// The subcommand is neither `get` nor `set`.
    UnknownSubcommand,
    /// A word is not an option of the subcommand.
    UnexpectedArgument,
    /// An option that takes a value came last.
    MissingValue,
    /// An option was given twice.
    RepeatedArgument,
    /// The value of `--stage` names no stage.
    InvalidStage,
    /// The value of `--block-number` is not a decimal `u64`.
    InvalidNumber,
    /// `set` was given without `--stage` or `--block-number`.
    MissingRequired,
}

/// The stage that a kebab-case name stands for.
pub open spec fn spec_stage_from_name(name: Seq<char>) -> Option<StageArg> {
    if name == "era"@ {
        Some(StageArg::Era)
    } else if name == "headers"@ {
        Some(StageArg::Headers)
    } else if name == "bodies"@ {
        Some(StageArg::Bodies)
    } else if name == "sender-recovery"@ {
        Some(StageArg::SenderRecovery)
    } else if name == "execution"@ {
        Some(StageArg::Execution)
    } else if name == "prune-sender-recovery"@ {
        Some(StageArg::PruneSenderRecovery)
    } else if name == "merkle-unwind"@ {
        Some(StageArg::MerkleUnwind)
    } else if name == "account-hashing"@ {
        Some(StageArg::AccountHashing)
    } else if name == "storage-hashing"@ {
        Some(StageArg::StorageHashing)
    } else if name == "merkle-execute"@ {
        Some(StageArg::MerkleExecute)
    } else if name == "transaction-lookup"@ {
        Some(StageArg::TransactionLookup)
    } else if name == "index-storage-history"@ {
        Some(StageArg::IndexStorageHistory)
    } else if name == "index-account-history"@ {
        Some(StageArg::IndexAccountHistory)
    } else if name == "prune"@ {
        Some(StageArg::Prune)
    } else if name == "finish"@ {
        Some(StageArg::Finish)
    } else {
        None
    }
}

/// Whether every character is an ASCII digit.
pub open spec fn spec_all_digits(s: Seq<char>) -> bool {
    forall|i: int| 0 <= i < s.len() ==> '0' <= #[trigger] s[i] <= '9'
}

/// The value of a string of decimal digits.
pub open spec fn spec_decimal(s: Seq<char>) -> int
    decreases s.len(),
{
    if s.len() == 0 {
        0
    } else {
        spec_decimal(s.drop_last()) * 10 + (s.last() as int - '0' as int)
    }
}

/// The number that a word spells: one or more decimal digits whose value fits in `u64`.
pub open spec fn spec_parse_u64(s: Seq<char>) -> Option<u64> {
    if s.len() > 0 && spec_all_digits(s) && spec_decimal(s) <= u64::MAX as int {
        Some(spec_decimal(s) as u64)
    } else {
        None
    }
}

/// Returns `true` if the two strings hold the same characters.
pub fn str_eq(a: &str, b: &str) -> (r: bool)
    ensures
        r == (a@ == b@),
{
    let n = a.unicode_len();
    if n != b.unicode_len() {
        return false;
    }
    let mut i: usize = 0;
    while i < n
        invariant
            n == a@.len(),
            n == b@.len(),
            i <= n,
            a@.subrange(0, i as int) == b@.subrange(0, i as int),
        decreases n - i,
    {
        if a.get_char(i) != b.get_char(i) {
            assert(a@[i as int] != b@[i as int]);
            return false;
        }
        assert(a@.subrange(0, i + 1) =~= a@.subrange(0, i as int).push(a@[i as int]));
        assert(b@.subrange(0, i + 1) =~= b@.subrange(0, i as int).push(b@[i as int]));
        i = i + 1;
    }
    assert(a@ =~= a@.subrange(0, n as int));
    assert(b@ =~= b@.subrange(0, n as int));
    true
}

/// Returns the stage that a kebab-case name stands for.
pub fn stage_from_name(name: &str) -> (r: Option<StageArg>)
    ensures
        r == spec_stage_from_name(name@),
{
    if str_eq(name, "era") {
        Some(StageArg::Era)
    } else if str_eq(name, "headers") {
        Some(StageArg::Headers)
    } else if str_eq(name, "bodies") {
        Some(StageArg::Bodies)
    } else if str_eq(name, "sender-recovery") {
        Some(StageArg::SenderRecovery)
    } else if str_eq(name, "execution") {
        Some(StageArg::Execution)
    } else if str_eq(name, "prune-sender-recovery") {
        Some(StageArg::PruneSenderRecovery)
    } else if str_eq(name, "merkle-unwind") {
        Some(StageArg::MerkleUnwind)
    } else if str_eq(name, "account-hashing") {
        Some(StageArg::AccountHashing)
    } else if str_eq(name, "storage-hashing") {
        Some(StageArg::StorageHashing)
    } else if str_eq(name, "merkle-execute") {
        Some(StageArg::MerkleExecute)
    } else if str_eq(name, "transaction-lookup") {
        Some(StageArg::TransactionLookup)
    } else if str_eq(name, "index-storage-history") {
        Some(StageArg::IndexStorageHistory)
    } else if str_eq(name, "index-account-history") {
        Some(StageArg::IndexAccountHistory)
    } else if str_eq(name, "prune") {
        Some(StageArg::Prune)
    } else if str_eq(name, "finish") {
        Some(StageArg::Finish)
    } else {
        None
    }
}

/// Reads a decimal `u64`: one or more ASCII digits, no sign, no overflow.
pub fn parse_u64(s: &str) -> (r: Option<u64>)
    ensures
        r == spec_parse_u64(s@),
{
    let n = s.unicode_len();
    if n == 0 {
        return None;
    }
    let mut value: u64 = 0;
    let mut i: usize = 0;
    while i < n
        invariant
            n == s@.len(),
            i <= n,
            spec_all_digits(s@.subrange(0, i as int)),
            value as int == spec_decimal(s@.subrange(0, i as int)),
        decreases n - i,
    {
        let c = s.get_char(i);
        let prefix = Ghost(s@.subrange(0, i as int));
        let next = Ghost(s@.subrange(0, i + 1));
        assert(next@ =~= prefix@.push(c));
        assert(next@.drop_last() =~= prefix@);
        if c < '0' || c > '9' {
            assert(!spec_all_digits(s@)) by {
                assert(s@[i as int] == c);
            }
            return None;
        }
        let d = (c as u32 - '0' as u32) as u64;
        if value > (u64::MAX - d) / 10 {
            proof {
                assert(value as int * 10 + d as int > u64::MAX as int) by (nonlinear_arith)
                    requires
                        value as int > (u64::MAX as int - d as int) / 10,
                        d <= 9,
                ;
                assert(spec_decimal(next@) == value as int * 10 + d as int);
                if spec_all_digits(s@) {
                    lemma_decimal_grows(s@, i as int + 1);
                }
            }
            return None;
        }
        value = value * 10 + d;
        i = i + 1;
    }
    assert(s@ =~= s@.subrange(0, n as int));
    Some(value)
}

/// A prefix of digits is worth no more than the whole string of digits.
proof fn lemma_decimal_grows(s: Seq<char>, k: int)
    requires
        0 <= k <= s.len(),
        spec_all_digits(s),
    ensures
        spec_decimal(s.subrange(0, k)) <= spec_decimal(s),
    decreases s.len() - k,
{
    if k < s.len() {
        lemma_decimal_grows(s, k + 1);
        let t = s.subrange(0, k + 1);
        assert(t.drop_last() =~= s.subrange(0, k));
        assert(spec_decimal(s.subrange(0, k)) >= 0) by {
            lemma_decimal_nonneg(s.subrange(0, k));
        }
        assert('0' <= t.last() <= '9');
    } else {
        assert(s.subrange(0, k) =~= s);
    }
}

/// The value of a string of digits is never negative.
proof fn lemma_decimal_nonneg(s: Seq<char>)
    requires
        spec_all_digits(s),
    ensures
        spec_decimal(s) >= 0,
    decreases s.len(),
{
    if s.len() > 0 {
        assert(spec_all_digits(s.drop_last())) by {
            assert forall|i: int| 0 <= i < s.drop_last().len() implies '0' <= #[trigger] s.drop_last()[i] <= '9' by {
                assert(s.drop_last()[i] == s[i]);
            }
        }
        lemma_decimal_nonneg(s.drop_last());
        assert('0' <= s[s.len() - 1] <= '9');
    }
}

/// The options read so far.
#[derive(Debug, Clone, Copy, PartialEq, Eq, Structural)]
pub struct OptionScan {
    /// The value of `--stage`, once given.
    pub stage: Option<StageArg>,
    /// The value of `--block-number`, once given.
    pub block_number: Option<u64>,
    /// Whether `--clear-stage-unit` was given.
    pub clear_stage_unit: bool,
}

/// The characters of each word.
pub open spec fn spec_words(args: Seq<&str>) -> Seq<Seq<char>> {
    args.map_values(|w: &str| w@)
}

/// Reads the options in `words` on top of `acc`. Each option is given at most once;
/// `--stage` and `--block-number` take the next word as their value. Only `--stage` is
/// known unless `set` holds.
pub open spec fn spec_scan(words: Seq<Seq<char>>, set: bool, acc: OptionScan) -> Result<OptionScan, ArgsError>
    decreases words.len(),
{
    if words.len() == 0 {
        Ok(acc)
    } else if words[0] == "--stage"@ {
        if words.len() < 2 {
            Err(ArgsError::MissingValue)
        } else if acc.stage is Some {
            Err(ArgsError::RepeatedArgument)
        } else {
            match spec_stage_from_name(words[1]) {
                Some(stage) => spec_scan(
                    words.subrange(2, words.len() as int),
                    set,
                    OptionScan { stage: Some(stage), ..acc },
                ),
                None => Err(ArgsError::InvalidStage),
            }
        }
    } else if set && words[0] == "--block-number"@ {
        if words.len() < 2 {
            Err(ArgsError::MissingValue)
        } else if acc.block_number is Some {
            Err(ArgsError::RepeatedArgument)
        } else {
            match spec_parse_u64(words[1]) {
                Some(n) => spec_scan(
                    words.subrange(2, words.len() as int),
                    set,
                    OptionScan { block_number: Some(n), ..acc },
                ),
                None => Err(ArgsError::InvalidNumber),
            }
        }
    } else if set && words[0] == "--clear-stage-unit"@ {
        if acc.clear_stage_unit {
            Err(ArgsError::RepeatedArgument)
        } else {
            spec_scan(words.drop_first(), set, OptionScan { clear_stage_unit: true, ..acc })
        }
    } else {
        Err(ArgsError::UnexpectedArgument)
    }
}

/// No option read yet.
pub open spec fn spec_no_options() -> OptionScan {
    OptionScan { stage: None, block_number: None, clear_stage_unit: false }
}

/// The command that the words spell: the program's name, the subcommand (`get` or `set`),
/// then its options.
pub open spec fn spec_parse(args: Seq<Seq<char>>) -> Result<Command, ArgsError> {
    if args.len() < 2 {
        Err(ArgsError::MissingSubcommand)
    } else if args[1] == "get"@ {
        match spec_scan(args.subrange(2, args.len() as int), false, spec_no_options()) {
            Ok(acc) => Ok(Command { command: Subcommands::Get { stage: acc.stage } }),
            Err(e) => Err(e),
        }
    } else if args[1] == "set"@ {
        match spec_scan(args.subrange(2, args.len() as int), true, spec_no_options()) {
            Ok(acc) => match (acc.stage, acc.block_number) {
                (Some(stage), Some(block_number)) => Ok(
                    Command {
                        command: Subcommands::SetCheckpoint(
                            SetArgs { stage, block_number, clear_stage_unit: acc.clear_stage_unit },
                        ),
                    },
                ),
                _ => Err(ArgsError::MissingRequired),
            },
            Err(e) => Err(e),
        }
    } else {
        Err(ArgsError::UnknownSubcommand)
    }
}

/// Reads the options of `args` from index `start` on.
pub fn scan_options(args: &[&str], start: usize, set: bool) -> (r: Result<OptionScan, ArgsError>)
    requires
        start <= args@.len(),
    ensures
        r == spec_scan(spec_words(args@).subrange(start as int, args@.len() as int), set, spec_no_options()),
{
    let ghost words = spec_words(args@);
    let n = args.len();
    let mut acc = OptionScan { stage: None, block_number: None, clear_stage_unit: false };
    let mut i: usize = start;
    while i < n
        invariant
            n == args@.len(),
            words == spec_words(args@),
            start <= i <= n,
            spec_scan(words.subrange(i as int, n as int), set, acc) == spec_scan(
                words.subrange(start as int, n as int),
                set,
                spec_no_options(),
            ),
        decreases n - i,
    {
        let ghost rest = words.subrange(i as int, n as int);
        assert(rest[0] == args@[i as int]@);
        let word = args[i];
        if str_eq(word, "--stage") {
            if i + 1 >= n {
                return Err(ArgsError::MissingValue);
            }
            if acc.stage.is_some() {
                return Err(ArgsError::RepeatedArgument);
            }
            assert(rest[1] == args@[i + 1]@);
            match stage_from_name(args[i + 1]) {
                Some(stage) => {
                    acc.stage = Some(stage);
                },
                None => {
                    return Err(ArgsError::InvalidStage);
                },
            }
            assert(rest.subrange(2, rest.len() as int) =~= words.subrange(i + 2, n as int));
            i = i + 2;
        } else if set && str_eq(word, "--block-number") {
            if i + 1 >= n {
                return Err(ArgsError::MissingValue);
            }
            if acc.block_number.is_some() {
                return Err(ArgsError::RepeatedArgument);
            }
            assert(rest[1] == args@[i + 1]@);
            match parse_u64(args[i + 1]) {
                Some(v) => {
                    acc.block_number = Some(v);
                },
                None => {
                    return Err(ArgsError::InvalidNumber);
                },
            }
            assert(rest.subrange(2, rest.len() as int) =~= words.subrange(i + 2, n as int));
            i = i + 2;
        } else if set && str_eq(word, "--clear-stage-unit") {
            if acc.clear_stage_unit {
                return Err(ArgsError::RepeatedArgument);
            }
            acc.clear_stage_unit = true;
            assert(rest.drop_first() =~= words.subrange(i + 1, n as int));
            i = i + 1;
        } else {
            return Err(ArgsError::UnexpectedArgument);
        }
    }
    Ok(acc)
}

impl Command {
    /// Reads the command from its command-line words: the program's name, `get` or `set`,
    /// then the subcommand's options.
    pub fn try_parse_from(args: &[&str]) -> (r: Result<Command, ArgsError>)
        ensures
            r == spec_parse(spec_words(args@)),
    {
        let ghost words = spec_words(args@);
        if args.len() < 2 {
            return Err(ArgsError::MissingSubcommand);
        }
        assert(words[1] == args@[1]@);
        if str_eq(args[1], "get") {
            match scan_options(args, 2, false) {
                Ok(acc) => Ok(Command { command: Subcommands::Get { stage: acc.stage } }),
                Err(e) => Err(e),
            }
        } else if str_eq(args[1], "set") {
            match scan_options(args, 2, true) {
                Ok(acc) => match (acc.stage, acc.block_number) {
                    (Some(stage), Some(block_number)) => Ok(
                        Command {
                            command: Subcommands::SetCheckpoint(
                                SetArgs { stage, block_number, clear_stage_unit: acc.clear_stage_unit },
                            ),
                        },
                    ),
                    _ => Err(ArgsError::MissingRequired),
                },
                Err(e) => Err(e),
            }
        } else {
            Err(ArgsError::UnknownSubcommand)
        }
    }
}

} // verus!
