//! Vesting streams and the investor snapshots read from them.

use vstd::prelude::*;
use crate::runtime::Pubkey;
use crate::calculations::{saturate, sum_locked, lemma_share_within_whole, lemma_wide_product};
use crate::errors::FeeRouterError;

verus! {

/// A linear vesting stream as recorded by the vesting program.
#[derive(Clone, Copy, Debug)]
pub struct StreamflowStream {
    pub magic: u64,
    pub version: u64,
    pub created_at: u64,
    pub start_time: u64,
    pub end_time: u64,
    pub deposited_amount: u64,
    pub withdrawn_amount: u64,
    pub recipient: Pubkey,
    pub sender: Pubkey,
    pub mint: Pubkey,
    pub escrow_tokens: Pubkey,
    pub name: [u8; 64],
    pub can_cancel: bool,
    pub can_transfer: bool,
    pub cancelled: bool,
    pub metadata: [u8; 128],
}

impl StreamflowStream {
    /// Linear vesting: nothing before the start, everything from the end on,
    /// and in between the deposit scaled by elapsed over total time, rounded down.
    pub open spec fn spec_unlocked_amount(self, t: u64) -> u64 {
        if t < self.start_time {
            0
        } else if t >= self.end_time {
            self.deposited_amount
        } else {
            (self.deposited_amount * (t - self.start_time) / ((self.end_time - self.start_time) as int)) as u64
        }
    }

    pub open spec fn spec_locked_amount(self, t: u64) -> u64 {
        (self.deposited_amount - self.spec_unlocked_amount(t)) as u64
    }

    /// Amount unlocked at `current_timestamp`, never more than the deposit.
    pub fn unlocked_amount(&self, current_timestamp: u64) -> (r: u64)
        ensures
            r == self.spec_unlocked_amount(current_timestamp),
            r <= self.deposited_amount,
    {
        if current_timestamp < self.start_time {
            return 0;
        }
        if current_timestamp >= self.end_time {
            return self.deposited_amount;
        }
        let elapsed_time = current_timestamp - self.start_time;
        let total_duration = self.end_time - self.start_time;
        proof {
            lemma_wide_product(self.deposited_amount, elapsed_time);
            lemma_share_within_whole(
                elapsed_time as int,
                total_duration as int,
                self.deposited_amount as int,
            );
        }
        let unlocked = (self.deposited_amount as u128 * elapsed_time as u128) / total_duration as u128;
        unlocked as u64
    }

    /// Amount still locked at `current_timestamp`: the deposit less what has unlocked.
    pub fn locked_amount(&self, current_timestamp: u64) -> (r: u64)
        ensures
            r == self.spec_locked_amount(current_timestamp),
            r <= self.deposited_amount,
    {
        let unlocked = self.unlocked_amount(current_timestamp);
        self.deposited_amount.saturating_sub(unlocked)
    }

    /// Amount unlocked and not yet withdrawn, or 0.
    pub fn withdrawable_amount(&self, current_timestamp: u64) -> (r: u64)
        ensures
            r == (if self.spec_unlocked_amount(current_timestamp) >= self.withdrawn_amount {
                self.spec_unlocked_amount(current_timestamp) - self.withdrawn_amount
            } else {
                0
            }),
    {
        let unlocked = self.unlocked_amount(current_timestamp);
        unlocked.saturating_sub(self.withdrawn_amount)
    }

    pub fn is_active(&self, current_timestamp: u64) -> (r: bool)
        ensures
            r == (!self.cancelled && self.start_time <= current_timestamp < self.end_time),
    {
        !self.cancelled && current_timestamp >= self.start_time && current_timestamp < self.end_time
    }

    pub fn is_fully_vested(&self, current_timestamp: u64) -> (r: bool)
        ensures
            r == (current_timestamp >= self.end_time),
    {
        current_timestamp >= self.end_time
    }
}

/// One investor's locked position, as read from a vesting stream at one moment.
#[derive(Clone, Copy, Debug)]
pub struct InvestorStreamData {
    pub investor: Pubkey,
    pub stream_account: Pubkey,
    pub locked_amount: u64,
    pub total_deposited: u64,
    pub investor_ata: Pubkey,
}

impl InvestorStreamData {
    /// Share of `total_locked` in basis points, rounded down; 0 when nothing is locked.
    pub open spec fn spec_weight(self, total_locked: u64) -> int {
        if total_locked == 0 {
            0
        } else {
            saturate(self.locked_amount * 10000 / (total_locked as int))
        }
    }

    /// Pro-rata part of `investor_fee_quote`, rounded down; 0 when either input is 0.
    pub open spec fn spec_payout(self, total_locked: u64, investor_fee_quote: u64) -> int {
        if total_locked == 0 || investor_fee_quote == 0 {
            0
        } else {
            saturate(investor_fee_quote * self.locked_amount / (total_locked as int))
        }
    }

    pub fn calculate_weight(&self, total_locked: u64) -> (r: u64)
        ensures
            r == self.spec_weight(total_locked),
            self.locked_amount <= total_locked ==> r <= 10000,
    {
        if total_locked == 0 {
            return 0;
        }
        let w = (self.locked_amount as u128 * 10000u128) / total_locked as u128;
        proof {
            if self.locked_amount <= total_locked {
                lemma_share_within_whole(self.locked_amount as int, total_locked as int, 10000);
            }
        }
        if w > u64::MAX as u128 {
            u64::MAX
        } else {
            w as u64
        }
    }

    pub fn calculate_payout(&self, total_locked: u64, investor_fee_quote: u64) -> (r: u64)
        ensures
            r == self.spec_payout(total_locked, investor_fee_quote),
            self.locked_amount <= total_locked ==> r <= investor_fee_quote,
    {
        if total_locked == 0 || investor_fee_quote == 0 {
            return 0;
        }
        proof {
            lemma_wide_product(investor_fee_quote, self.locked_amount);
        }
        let p = (investor_fee_quote as u128 * self.locked_amount as u128) / total_locked as u128;
        proof {
            if self.locked_amount <= total_locked {
                lemma_share_within_whole(
                    self.locked_amount as int,
                    total_locked as int,
                    investor_fee_quote as int,
                );
            }
        }
        if p > u64::MAX as u128 {
            u64::MAX
        } else {
            p as u64
        }
    }
}

/// Bytes of the vesting program's address (strmRqUCoQUgGUan5YhzUZa6KqdzwX5L6FpUxfmKg5m).
pub open spec fn spec_streamflow_program_id() -> Seq<u8> {
    seq![
        0x0du8, 0x09, 0xad, 0x30, 0x6f, 0xf1, 0x5e, 0x77, 0xdd, 0x31, 0x19, 0xbc, 0xd6, 0xe7,
        0x30, 0xf1, 0x5d, 0x05, 0x1d, 0x7c, 0x09, 0x7a, 0x7a, 0x1d, 0x00, 0xea, 0x41, 0x0e,
        0xee, 0x48, 0xe7, 0x20,
    ]
}

/// Address of the vesting program that owns stream accounts.
pub fn streamflow_program_id() -> (r: Pubkey)
    ensures
        r.bytes@ == spec_streamflow_program_id(),
{
    let r = Pubkey::new_from_array(
        [
            0x0d, 0x09, 0xad, 0x30, 0x6f, 0xf1, 0x5e, 0x77, 0xdd, 0x31, 0x19, 0xbc, 0xd6, 0xe7,
            0x30, 0xf1, 0x5d, 0x05, 0x1d, 0x7c, 0x09, 0x7a, 0x7a, 0x1d, 0x00, 0xea, 0x41, 0x0e,
            0xee, 0x48, 0xe7, 0x20,
        ],
    );
    assert(r.bytes@ =~= spec_streamflow_program_id());
    r
}

/// Accepts a stream account only when the vesting program owns it.
pub fn validate_stream_account(owner: &Pubkey) -> (r: Result<(), FeeRouterError>)
    ensures
        r is Ok <==> owner.bytes@ == spec_streamflow_program_id(),
        r matches Err(e) ==> e == FeeRouterError::InvalidStreamOwner,
{
    let expected = streamflow_program_id();
    if *owner == expected {
        Ok(())
    } else {
        Err(FeeRouterError::InvalidStreamOwner)
    }
}

/// An investor's locked amount and payout account, without the stream.
#[derive(Clone, Copy, Debug)]
pub struct InvestorData {
    pub investor: Pubkey,
    pub locked_amount: u64,
    pub investor_ata: Pubkey,
}

/// Why one stream of a page yielded no snapshot.
#[derive(Clone, Copy, Debug, PartialEq, Eq, Structural)]
pub enum StreamErrorType {
    InvalidStreamData,
    MissingInvestorAta,
    StreamExpired,
    InsufficientLocked,
    AccountDeserializationFailed,
}

pub open spec fn spec_error_message(t: StreamErrorType) -> Seq<char> {
    match t {
        StreamErrorType::InvalidStreamData => "Invalid stream data"@,
        StreamErrorType::MissingInvestorAta => "Missing investor payout account"@,
        StreamErrorType::StreamExpired => "Stream has expired"@,
        StreamErrorType::InsufficientLocked => "Insufficient locked amount"@,
        StreamErrorType::AccountDeserializationFailed => "Failed to deserialize stream account"@,
    }
}

impl StreamErrorType {
    /// A description of the failure.
    pub fn message(&self) -> (r: String)
        ensures
            r@ == spec_error_message(*self),
    {
        match self {
            StreamErrorType::InvalidStreamData => "Invalid stream data".to_owned(),
            StreamErrorType::MissingInvestorAta => "Missing investor payout account".to_owned(),
            StreamErrorType::StreamExpired => "Stream has expired".to_owned(),
            StreamErrorType::InsufficientLocked => "Insufficient locked amount".to_owned(),
            StreamErrorType::AccountDeserializationFailed => "Failed to deserialize stream account".to_owned(),
        }
    }
}

/// A non-fatal failure on one stream of a page.
#[derive(Clone, Debug)]
pub struct StreamError {
    pub stream_account: Pubkey,
    pub investor: Option<Pubkey>,
    pub error_type: StreamErrorType,
    pub error_message: String,
}

/// What the page holds for one stream: the stream account's address, its
/// decoded record (`None` where the account did not decode) and the payout
/// account of its recipient (`None` where there is none).
#[derive(Clone, Copy, Debug)]
pub struct StreamRead {
    pub stream_account: Pubkey,
    pub stream: Option<StreamflowStream>,
    pub payout_account: Option<Pubkey>,
}

/// A stream failure without its message.
pub struct StreamFailure {
    pub stream_account: Pubkey,
    pub investor: Option<Pubkey>,
    pub error_type: StreamErrorType,
}

impl StreamError {
    pub open spec fn failure(self) -> StreamFailure {
        StreamFailure {
            stream_account: self.stream_account,
            investor: self.investor,
            error_type: self.error_type,
        }
    }
}

/// The outcome of reading one stream at `now`: an undecodable record or an
/// expired stream is a failure; a stream with nothing locked is skipped
/// (`Ok(None)`); a locked stream without a payout account is a failure;
/// otherwise its snapshot.
pub open spec fn spec_stream_outcome(read: StreamRead, now: u64) -> Result<
    Option<InvestorStreamData>,
    StreamFailure,
> {
    match read.stream {
        None => Err(
            StreamFailure {
                stream_account: read.stream_account,
                investor: None,
                error_type: StreamErrorType::AccountDeserializationFailed,
            },
        ),
        Some(stream) => if stream.end_time < now {
            Err(
                StreamFailure {
                    stream_account: read.stream_account,
                    investor: Some(stream.recipient),
                    error_type: StreamErrorType::StreamExpired,
                },
            )
        } else if stream.spec_locked_amount(now) == 0 {
            Ok(None)
        } else {
            match read.payout_account {
                None => Err(
                    StreamFailure {
                        stream_account: read.stream_account,
                        investor: Some(stream.recipient),
                        error_type: StreamErrorType::MissingInvestorAta,
                    },
                ),
                Some(ata) => Ok(
                    Some(
                        InvestorStreamData {
                            investor: stream.recipient,
                            stream_account: read.stream_account,
                            locked_amount: stream.spec_locked_amount(now),
                            total_deposited: stream.deposited_amount,
                            investor_ata: ata,
                        },
                    ),
                ),
            }
        },
    }
}

/// Reads one stream of a page; see `spec_stream_outcome`.
pub fn process_single_stream(read: &StreamRead, current_timestamp: u64) -> (r: Result<
    Option<InvestorStreamData>,
    StreamError,
>)
    ensures
        match r {
            Ok(x) => spec_stream_outcome(*read, current_timestamp) == Ok::<
                Option<InvestorStreamData>,
                StreamFailure,
            >(x),
            Err(e) => spec_stream_outcome(*read, current_timestamp) == Err::<
                Option<InvestorStreamData>,
                StreamFailure,
            >(e.failure()) && e.error_message@ == spec_error_message(e.error_type),
        },
{
    let stream = match read.stream {
        Some(stream) => stream,
        None => {
            let error_type = StreamErrorType::AccountDeserializationFailed;
            return Err(
                StreamError {
                    stream_account: read.stream_account,
                    investor: None,
                    error_type,
                    error_message: error_type.message(),
                },
            );
        },
    };
    if stream.end_time < current_timestamp {
        let error_type = StreamErrorType::StreamExpired;
        return Err(
            StreamError {
                stream_account: read.stream_account,
                investor: Some(stream.recipient),
                error_type,
                error_message: error_type.message(),
            },
        );
    }
    let locked_amount = stream.locked_amount(current_timestamp);
    if locked_amount == 0 {
        return Ok(None);
    }
    match read.payout_account {
        None => {
            let error_type = StreamErrorType::MissingInvestorAta;
            Err(
                StreamError {
                    stream_account: read.stream_account,
                    investor: Some(stream.recipient),
                    error_type,
                    error_message: error_type.message(),
                },
            )
        },
        Some(investor_ata) => Ok(
            Some(
                InvestorStreamData {
                    investor: stream.recipient,
                    stream_account: read.stream_account,
                    locked_amount,
                    total_deposited: stream.deposited_amount,
                    investor_ata,
                },
            ),
        ),
    }
}

/// The snapshots of a page, in page order: one for each stream read
/// successfully with a positive locked amount.
pub open spec fn spec_snapshots(reads: Seq<StreamRead>, now: u64) -> Seq<InvestorStreamData>
    decreases reads.len(),
{
    if reads.len() == 0 {
        Seq::empty()
    } else {
        let prev = spec_snapshots(reads.drop_last(), now);
        match spec_stream_outcome(reads.last(), now) {
            Ok(Some(d)) => prev.push(d),
            _ => prev,
        }
    }
}

/// The failures of a page, in page order.
pub open spec fn spec_stream_failures(reads: Seq<StreamRead>, now: u64) -> Seq<StreamFailure>
    decreases reads.len(),
{
    if reads.len() == 0 {
        Seq::empty()
    } else {
        let prev = spec_stream_failures(reads.drop_last(), now);
        match spec_stream_outcome(reads.last(), now) {
            Err(f) => prev.push(f),
            _ => prev,
        }
    }
}

/// Reads every stream of a page. A failing stream is recorded and skipped;
/// it never aborts the page. Returns the snapshots, their total locked amount
/// (saturated at `u64::MAX`) and the failures.
pub fn calculate_locked_amounts_with_errors(stream_reads: &[StreamRead], current_timestamp: u64) -> (r: (
    Vec<InvestorStreamData>,
    u64,
    Vec<StreamError>,
))
    ensures
        r.0@ == spec_snapshots(stream_reads@, current_timestamp),
        r.1 == saturate(sum_locked(r.0@)),
        r.2@.len() == spec_stream_failures(stream_reads@, current_timestamp).len(),
        forall|i: int|
            0 <= i < r.2@.len() ==> {
                &&& (#[trigger] r.2@[i]).failure() == spec_stream_failures(
                    stream_reads@,
                    current_timestamp,
                )[i]
                &&& r.2@[i].error_message@ == spec_error_message(r.2@[i].error_type)
            },
{
    let mut investor_data: Vec<InvestorStreamData> = Vec::new();
    let mut total_locked: u64 = 0;
    let mut errors: Vec<StreamError> = Vec::new();
    let n = stream_reads.len();
    let mut i: usize = 0;
    while i < n
        invariant
            n == stream_reads@.len(),
            0 <= i <= n,
            investor_data@ == spec_snapshots(stream_reads@.subrange(0, i as int), current_timestamp),
            total_locked == saturate(sum_locked(investor_data@)),
            errors@.len() == spec_stream_failures(
                stream_reads@.subrange(0, i as int),
                current_timestamp,
            ).len(),
            forall|j: int|
                0 <= j < errors@.len() ==> {
                    &&& (#[trigger] errors@[j]).failure() == spec_stream_failures(
                        stream_reads@.subrange(0, i as int),
                        current_timestamp,
                    )[j]
                    &&& errors@[j].error_message@ == spec_error_message(errors@[j].error_type)
                },
        decreases n - i,
    {
        let ghost prefix = stream_reads@.subrange(0, i as int);
        let ghost next = stream_reads@.subrange(0, i + 1);
        assert(next.drop_last() == prefix);
        assert(next.last() == stream_reads@[i as int]);
        proof {
            crate::calculations::lemma_sum_locked_nonneg(investor_data@);
        }
        match process_single_stream(&stream_reads[i], current_timestamp) {
            Ok(Some(data)) => {
                assert(investor_data@.push(data).drop_last() =~= investor_data@);
                total_locked = total_locked.saturating_add(data.locked_amount);
                investor_data.push(data);
            },
            Ok(None) => {},
            Err(error) => {
                errors.push(error);
            },
        }
        i = i + 1;
    }
    assert(stream_reads@.subrange(0, n as int) == stream_reads@);
    (investor_data, total_locked, errors)
}

/// The snapshots of a page and their total locked amount, the failures left out.
pub fn calculate_locked_amounts(stream_reads: &[StreamRead], current_timestamp: u64) -> (r: (
    Vec<InvestorStreamData>,
    u64,
))
    ensures
        r.0@ == spec_snapshots(stream_reads@, current_timestamp),
        r.1 == saturate(sum_locked(r.0@)),
{
    let (investor_data, total_locked, _errors) = calculate_locked_amounts_with_errors(
        stream_reads,
        current_timestamp,
    );
    (investor_data, total_locked)
}

} // verus!
