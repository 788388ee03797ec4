//! The `stage-checkpoints` database command: which stage it reads or writes, and what a
//! `set` writes.
use vstd::prelude::*;
use vstd::string::StrSliceExecFns;

verus! {

/// Database access that a command needs.
#[derive(Debug, Clone, Copy, PartialEq, Eq, Structural)]
pub enum AccessRights {
    /// Read and write.
    RW,
    /// Read only.
    RO,
}

impl AccessRights {
    /// Returns `true` if writes are needed.
    pub fn is_read_write(&self) -> (r: bool)
        ensures
            r == (*self is RW),
    {
        matches!(self, AccessRights::RW)
    }
}

/// Stage names as the command line writes them.
#[derive(Debug, Clone, Copy, PartialEq, Eq, Structural)]
pub enum StageArg {
    Era,
    Headers,
    Bodies,
    SenderRecovery,
    Execution,
    PruneSenderRecovery,
    MerkleUnwind,
    AccountHashing,
    StorageHashing,
    MerkleExecute,
    TransactionLookup,
    IndexStorageHistory,
    IndexAccountHistory,
    Prune,
    Finish,
}

/// The stages whose checkpoints the database keeps.
#[derive(Debug, Clone, Copy, PartialEq, Eq, Structural)]
pub enum StageId {
    Era,
    Headers,
    Bodies,
    SenderRecovery,
    Execution,
    PruneSenderRecovery,
    MerkleUnwind,
    AccountHashing,
    StorageHashing,
    MerkleExecute,
    TransactionLookup,
    IndexStorageHistory,
    IndexAccountHistory,
    Prune,
    Finish,
}

/// The stage that a command-line name stands for.
pub open spec fn spec_stage_id(arg: StageArg) -> StageId {
    match arg {
        StageArg::Era => StageId::Era,
        StageArg::Headers => StageId::Headers,
        StageArg::Bodies => StageId::Bodies,
        StageArg::SenderRecovery => StageId::SenderRecovery,
        StageArg::Execution => StageId::Execution,
        StageArg::PruneSenderRecovery => StageId::PruneSenderRecovery,
        StageArg::MerkleUnwind => StageId::MerkleUnwind,
        StageArg::AccountHashing => StageId::AccountHashing,
        StageArg::StorageHashing => StageId::StorageHashing,
        StageArg::MerkleExecute => StageId::MerkleExecute,
        StageArg::TransactionLookup => StageId::TransactionLookup,
        StageArg::IndexStorageHistory => StageId::IndexStorageHistory,
        StageArg::IndexAccountHistory => StageId::IndexAccountHistory,
        StageArg::Prune => StageId::Prune,
        StageArg::Finish => StageId::Finish,
    }
}

impl From<StageArg> for StageId {
    fn from(arg: StageArg) -> (r: Self) {
        match arg {
            StageArg::Era => StageId::Era,
            StageArg::Headers => StageId::Headers,
            StageArg::Bodies => StageId::Bodies,
            StageArg::SenderRecovery => StageId::SenderRecovery,
            StageArg::Execution => StageId::Execution,
            StageArg::PruneSenderRecovery => StageId::PruneSenderRecovery,
            StageArg::MerkleUnwind => StageId::MerkleUnwind,
            StageArg::AccountHashing => StageId::AccountHashing,
            StageArg::StorageHashing => StageId::StorageHashing,
            StageArg::MerkleExecute => StageId::MerkleExecute,
            StageArg::TransactionLookup => StageId::TransactionLookup,
            StageArg::IndexStorageHistory => StageId::IndexStorageHistory,
            StageArg::IndexAccountHistory => StageId::IndexAccountHistory,
            StageArg::Prune => StageId::Prune,
            StageArg::Finish => StageId::Finish,
        }
    }
}

impl vstd::std_specs::convert::FromSpecImpl<StageArg> for StageId {
    open spec fn obeys_from_spec() -> bool {
        true
    }

    open spec fn from_spec(arg: StageArg) -> StageId {
        spec_stage_id(arg)
    }
}

/// Arguments for the `set` subcommand.
#[derive(Debug, Clone, Copy, PartialEq, Eq, Structural)]
pub struct SetArgs {
    /// Stage to update.
    pub stage: StageArg,
    /// Block number to set as stage checkpoint.
    pub block_number: u64,
    /// Clear stage-specific unit checkpoint payload.
    pub clear_stage_unit: bool,
}

/// The subcommands of `stage-checkpoints`.
#[derive(Debug, Clone, Copy, PartialEq, Eq, Structural)]
pub enum Subcommands {
    /// Get stage checkpoint(s) from database; all stages when none is named.
    Get { stage: Option<StageArg> },
    /// Set a stage checkpoint.
    SetCheckpoint(SetArgs),
}

/// `stage-checkpoints` command.
#[derive(Debug, Clone, Copy, PartialEq, Eq, Structural)]
pub struct Command {
    /// The subcommand to run.
    pub command: Subcommands,
}

/// A stage's saved progress: the block it reached and, for some stages, a payload of
/// finer-grained progress.
#[derive(Debug, Clone, Copy, PartialEq, Eq)]
pub struct StageCheckpoint<U> {
    /// The block the stage has reached.
    pub block_number: u64,
    /// Stage-specific progress within the block range.
    pub stage_checkpoint: Option<U>,
}

impl Command {
    /// Returns database access rights required for the command.
    pub fn access_rights(&self) -> (r: AccessRights)
        ensures
            self.command is Get ==> r is RO,
            self.command is SetCheckpoint ==> r is RW,
    {
        match &self.command {
            Subcommands::Get { .. } => AccessRights::RO,
            Subcommands::SetCheckpoint(_) => AccessRights::RW,
        }
    }
}

impl SetArgs {
    /// The stage that the command writes.
    pub fn stage_id(&self) -> (r: StageId)
        ensures
            r == spec_stage_id(self.stage),
    {
        StageId::from(self.stage)
    }

    /// The checkpoint that `set` writes over `previous`: the new block number, and the
    /// previous payload unless it is to be cleared or there was no checkpoint.
    pub fn updated_checkpoint<U>(&self, previous: Option<StageCheckpoint<U>>) -> (r:
        StageCheckpoint<U>)
        ensures
            r.block_number == self.block_number,
            r.stage_checkpoint == match previous {
                Some(p) => if self.clear_stage_unit {
                    None
                } else {
                    p.stage_checkpoint
                },
                None => None,
            },
    {
        let unit = match previous {
            Some(p) => if self.clear_stage_unit {
                None
            } else {
                p.stage_checkpoint
            },
            None => None,
        };
        StageCheckpoint { block_number: self.block_number, stage_checkpoint: unit }
    }
}

/// Whether `a` comes no later than `b` in lexicographic order of their characters.
pub open spec fn spec_name_le(a: Seq<char>, b: Seq<char>) -> bool
    decreases a.len(),
{
    if a.len() == 0 {
        true
    } else if b.len() == 0 {
        false
    } else if a[0] != b[0] {
        a[0] < b[0]
    } else {
        spec_name_le(a.drop_first(), b.drop_first())
    }
}

/// Whether the entries are ordered by name.
pub open spec fn spec_sorted_by_name<T>(s: Seq<(String, T)>) -> bool {
    forall|i: int, j: int| 0 <= i < j < s.len() ==> spec_name_le(#[trigger] s[i].0@, #[trigger] s[j].0@)
}

/// Any two names are ordered one way or the other.
pub proof fn lemma_name_le_total(a: Seq<char>, b: Seq<char>)
    ensures
        spec_name_le(a, b) || spec_name_le(b, a),
    decreases a.len(),
{
    if a.len() > 0 && b.len() > 0 && a[0] == b[0] {
        lemma_name_le_total(a.drop_first(), b.drop_first());
    }
}

/// The order of names is transitive.
pub proof fn lemma_name_le_transitive(a: Seq<char>, b: Seq<char>, c: Seq<char>)
    requires
        spec_name_le(a, b),
        spec_name_le(b, c),
    ensures
        spec_name_le(a, c),
    decreases a.len(),
{
    if a.len() > 0 && b.len() > 0 && c.len() > 0 && a[0] == b[0] && b[0] == c[0] {
        lemma_name_le_transitive(a.drop_first(), b.drop_first(), c.drop_first());
    }
}

/// Returns `true` if `a` comes no later than `b` in lexicographic order.
pub fn name_le(a: &str, b: &str) -> (r: bool)
    ensures
        r == spec_name_le(a@, b@),
{
    let n = a.unicode_len();
    let m = b.unicode_len();
    let mut i: usize = 0;
    assert(a@.skip(0) =~= a@);
    assert(b@.skip(0) =~= b@);
    while i < n && i < m
        invariant
            n == a@.len(),
            m == b@.len(),
            i <= n,
            i <= m,
            spec_name_le(a@, b@) == spec_name_le(a@.skip(i as int), b@.skip(i as int)),
        decreases n - i,
    {
        let x = a.get_char(i);
        let y = b.get_char(i);
        assert(a@.skip(i as int)[0] == x);
        assert(b@.skip(i as int)[0] == y);
        if x != y {
            return x < y;
        }
        assert(a@.skip(i as int).drop_first() =~= a@.skip(i + 1));
        assert(b@.skip(i as int).drop_first() =~= b@.skip(i + 1));
        i = i + 1;
    }
    i == n
}

/// Orders the entries of a checkpoint listing by stage name, keeping each entry.
pub fn sort_checkpoints<T>(entries: Vec<(String, T)>) -> (r: Vec<(String, T)>)
    ensures
        spec_sorted_by_name(r@),
        r@.to_multiset() == entries@.to_multiset(),
{
    broadcast use vstd::seq_lib::group_to_multiset_ensures;

    let mut input = entries;
    let mut sorted: Vec<(String, T)> = Vec::new();
    while input.len() > 0
        invariant
            spec_sorted_by_name(sorted@),
            sorted@.to_multiset().add(input@.to_multiset()) == entries@.to_multiset(),
        decreases input.len(),
    {
        let ghost before = input@;
        let item = input.pop().unwrap();
        assert(before =~= input@.push(item));
        let mut pos: usize = 0;
        while pos < sorted.len() && !name_le(item.0.as_str(), sorted[pos].0.as_str())
            invariant
                pos <= sorted@.len(),
                forall|k: int| 0 <= k < pos ==> spec_name_le(#[trigger] sorted@[k].0@, item.0@),
            decreases sorted@.len() - pos,
        {
            proof {
                lemma_name_le_total(item.0@, sorted@[pos as int].0@);
            }
            pos = pos + 1;
        }
        let ghost old_sorted = sorted@;
        sorted.insert(pos, item);
        proof {
            assert(sorted@ =~= old_sorted.insert(pos as int, item));
            assert forall|i: int, j: int| 0 <= i < j < sorted@.len() implies spec_name_le(
                #[trigger] sorted@[i].0@,
                #[trigger] sorted@[j].0@,
            ) by {
                if j == pos {
                } else if i == pos {
                    if j - 1 > pos {
                        lemma_name_le_transitive(item.0@, old_sorted[pos as int].0@, old_sorted[j - 1].0@);
                    }
                } else if i < pos && j > pos {
                    lemma_name_le_transitive(old_sorted[i].0@, item.0@, old_sorted[pos as int].0@);
                    if j - 1 > pos {
                        lemma_name_le_transitive(old_sorted[i].0@, old_sorted[pos as int].0@, old_sorted[j - 1].0@);
                    }
                } else if j < pos {
                } else {
                    assert(sorted@[i] == old_sorted[i - 1]);
                    assert(sorted@[j] == old_sorted[j - 1]);
                }
            }
            vstd::seq_lib::to_multiset_insert(old_sorted, pos as int, item);
            vstd::seq_lib::to_multiset_build(input@, item);
            assert(before.to_multiset() =~= input@.to_multiset().insert(item));
            assert(sorted@.to_multiset().add(input@.to_multiset()) =~= old_sorted.to_multiset().add(
                before.to_multiset(),
            ));
        }
    }
    sorted
}

} // verus!
