//! Checkpoints: per chain, a file named after the chain id holds the next
//! block to scan, in decimal. A scan starts there (or at block 0) and moves
//! the checkpoint past each block whose mail event was handled.

use vstd::prelude::*;
use vstd::string::StringExecFns;
use vstd::string::StringSliceAdditionalSpecFns;

use crate::chain::{limbs_value, u256_debug_text};
use crate::decimal::{
    decimal, lemma_ascii_text_bytes, lemma_decimal_digits, lemma_decimal_injective,
    lemma_decimal_round_trip, parse_u64, parse_u64_text, u64_to_decimal, IntParseError,
};

verus! {

/// The text before the chain id in a checkpoint file's name.
pub open spec fn checkpoint_prefix() -> Seq<char> {
    ".checkpoint:"@
}

/// The name of the checkpoint file of the chain with this id.
pub open spec fn checkpoint_key_of(chain_id: nat) -> Seq<char> {
    checkpoint_prefix() + decimal(chain_id)
}

/// The name of the checkpoint file of a chain, given the four little-endian
/// limbs of its `U256` chain id: `.checkpoint:` and the id in decimal.
pub fn checkpoint_key(chain_id: [u64; 4]) -> (key: String)
    ensures
        key@ == checkpoint_key_of(limbs_value(chain_id@)),
{
    let mut key = String::from_str(".checkpoint:");
    let id = u256_debug_text(chain_id);
    key.append(id.as_str());
    key
}

/// What a checkpoint file holds for a block number: its decimal text.
pub fn checkpoint_text(block_number: u64) -> (text: String)
    ensures
        text@ == decimal(block_number as nat),
{
    u64_to_decimal(block_number)
}

/// Reads the block number out of a checkpoint file's text, as
/// `str::parse::<u64>` does (no surrounding whitespace is allowed).
pub fn read_checkpoint(text: &str) -> (r: Result<u64, IntParseError>)
    ensures
        r == parse_u64(text.spec_bytes()),
{
    parse_u64_text(text)
}

/// The block a scan starts from: the stored checkpoint if its text (the
/// UTF-8 bytes of the file) parses, else block 0.
pub open spec fn start_block_of(stored: Option<Seq<u8>>) -> u64 {
    match stored {
        Some(bytes) => match parse_u64(bytes) {
            Ok(n) => n,
            Err(_) => 0,
        },
        None => 0,
    }
}

/// The block a scan starts from, given the checkpoint file's text if it
/// could be read: a missing, unreadable or malformed checkpoint means 0.
pub fn scan_start_block(stored: Option<&str>) -> (block: u64)
    ensures
        block == start_block_of(
            match stored {
                Some(t) => Some(t.spec_bytes()),
                None => None,
            },
        ),
{
    match stored {
        Some(t) => match read_checkpoint(t) {
            Ok(n) => n,
            Err(_) => 0,
        },
        None => 0,
    }
}

/// What the scan does with its checkpoint after one mail event.
#[derive(Debug, Clone, Copy, PartialEq, Eq, Structural)]
pub enum ScanStep {
    /// Store this block as the next one to scan.
    SaveCheckpoint(u64),
    /// Leave the checkpoint as it is.
    KeepCheckpoint,
}

/// The checkpoint decision after the event of a log in `block_number`: a
/// handled event moves the checkpoint to the next block, a failed one leaves
/// it, so that the next run reads that block again.
pub fn step_after_log(handled: bool, block_number: u64) -> (step: ScanStep)
    requires
        handled ==> block_number < u64::MAX,
    ensures
        handled ==> step == ScanStep::SaveCheckpoint((block_number + 1) as u64),
        !handled ==> step == ScanStep::KeepCheckpoint,
{
    if handled {
        ScanStep::SaveCheckpoint(block_number + 1)
    } else {
        ScanStep::KeepCheckpoint
    }
}

/// A checkpoint reads back as it was written: a file that holds the text
/// written for block `n` makes the next scan start at `n`.
pub proof fn lemma_checkpoint_round_trip(n: u64, stored: &str)
    requires
        stored@ == decimal(n as nat),
    ensures
        parse_u64(stored.spec_bytes()) == Ok::<u64, IntParseError>(n),
        start_block_of(Some(stored.spec_bytes())) == n,
{
    lemma_decimal_digits(n as nat);
    lemma_ascii_text_bytes(stored);
    lemma_decimal_round_trip(n);
}

/// After the event in block `b` was handled, the next scan starts at `b + 1`:
/// the checkpoint saved is `b + 1`, and its file text reads back as `b + 1`.
pub proof fn lemma_resume_after_handled(b: u64, stored: &str)
    requires
        b < u64::MAX,
        stored@ == decimal((b + 1) as nat),
    ensures
        start_block_of(Some(stored.spec_bytes())) == b + 1,
{
    lemma_checkpoint_round_trip((b + 1) as u64, stored);
}

/// A checkpoint file is named `.checkpoint:` and the chain id in decimal.
pub proof fn lemma_checkpoint_key_parts(chain_id: nat)
    ensures
        checkpoint_key_of(chain_id) == seq!['.', 'c', 'h', 'e', 'c', 'k', 'p', 'o', 'i', 'n', 't', ':']
            + decimal(chain_id),
{
    reveal_strlit(".checkpoint:");
    assert(checkpoint_prefix() =~= seq!['.', 'c', 'h', 'e', 'c', 'k', 'p', 'o', 'i', 'n', 't', ':']);
}

/// Without a stored checkpoint, or with one that does not parse, a scan
/// starts at block 0; a stored number is where it starts.
pub proof fn lemma_scan_start(stored: Option<Seq<u8>>)
    ensures
        stored is None ==> start_block_of(stored) == 0,
        stored matches Some(b) ==> (parse_u64(b) is Err ==> start_block_of(stored) == 0),
        stored matches Some(b) ==> (parse_u64(b) matches Ok(n) ==> start_block_of(stored) == n),
{
}

/// Each chain has a checkpoint file of its own: different chain ids give
/// different file names.
pub proof fn lemma_checkpoint_keys_distinct(a: nat, b: nat)
    requires
        a != b,
    ensures
        checkpoint_key_of(a) != checkpoint_key_of(b),
{
    if checkpoint_key_of(a) == checkpoint_key_of(b) {
        let p = checkpoint_prefix();
        assert(decimal(a) =~= checkpoint_key_of(a).subrange(p.len() as int, checkpoint_key_of(a).len() as int));
        assert(decimal(b) =~= checkpoint_key_of(b).subrange(p.len() as int, checkpoint_key_of(b).len() as int));
        lemma_decimal_injective(a, b);
    }
}

} // verus!
