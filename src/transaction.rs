//! The transaction log: one record per read, write or erase.
use vstd::prelude::*;

verus! {

/// How much detail the transaction log keeps for each operation.
///
/// Every level records the offsets, lengths and the correlation tag; the
/// level only decides which byte payloads are kept.
#[derive(Debug, Clone, Copy, PartialEq, Eq, Structural)]
pub enum TransactionLogLevel {
    /// Nothing beyond what every level records.
    Off,
    /// Offsets and lengths only.
    Minimal,
    /// The bytes of each write, which is enough to reconstruct the contents.
    WriteDataOnly,
    /// The bytes of each read and each write.
    ReadWriteData,
    /// Everything, including the contents after a write and before an erase.
    Full,
}

/// Whether a read record keeps the bytes that were read.
pub open spec fn keeps_read_data(level: TransactionLogLevel) -> bool {
    level == TransactionLogLevel::ReadWriteData || level == TransactionLogLevel::Full
}

/// Whether a write record keeps the bytes that were written.
pub open spec fn keeps_write_data(level: TransactionLogLevel) -> bool {
    level == TransactionLogLevel::WriteDataOnly || level == TransactionLogLevel::ReadWriteData
        || level == TransactionLogLevel::Full
}

/// Whether a write record keeps the contents of the range after the write.
pub open spec fn keeps_after_write(level: TransactionLogLevel) -> bool {
    level == TransactionLogLevel::Full
}

/// Whether an erase record keeps the contents of the range before the erase.
pub open spec fn keeps_erased_data(level: TransactionLogLevel) -> bool {
    level == TransactionLogLevel::Full
}

/// A payload that is present exactly when `keep` holds, and then equals `bytes`.
pub open spec fn payload_matches(payload: Option<Vec<u8>>, keep: bool, bytes: Seq<u8>) -> bool {
    match payload {
        Some(v) => keep && v@ == bytes,
        None => !keep,
    }
}

/// A recorded storage operation.
///
/// The payload fields are filled according to the [`TransactionLogLevel`]
/// that was active when the operation ran. `O` is a caller-chosen tag that
/// relates storage traffic to a higher-level operation.
#[derive(Debug, Clone)]
pub enum Transaction<O> {
    Read { operation: Option<O>, offset: u32, length: usize, data: Option<Vec<u8>> },
    Write {
        operation: Option<O>,
        offset: u32,
        data: Option<Vec<u8>>,
        after_write: Option<Vec<u8>>,
    },
    Erase { operation: Option<O>, from: u32, to: u32, data: Option<Vec<u8>> },
}

impl<O> Transaction<O> {
    /// The correlation tag carried by the record.
    pub open spec fn tag(&self) -> Option<O> {
        match self {
            Transaction::Read { operation, .. } => *operation,
            Transaction::Write { operation, .. } => *operation,
            Transaction::Erase { operation, .. } => *operation,
        }
    }

    /// The record of a read of `length` bytes at `offset` that delivered
    /// `bytes`, made at `level`.
    pub open spec fn is_read_record(
        &self,
        level: TransactionLogLevel,
        offset: u32,
        length: usize,
        bytes: Seq<u8>,
    ) -> bool {
        match self {
            Transaction::Read { offset: o, length: l, data, .. } => {
                &&& *o == offset
                &&& *l == length
                &&& payload_matches(*data, keeps_read_data(level), bytes)
            },
            _ => false,
        }
    }

    /// The record of a write of `bytes` at `offset` that left `after` in the
    /// range, made at `level`.
    pub open spec fn is_write_record(
        &self,
        level: TransactionLogLevel,
        offset: u32,
        bytes: Seq<u8>,
        after: Seq<u8>,
    ) -> bool {
        match self {
            Transaction::Write { offset: o, data, after_write, .. } => {
                &&& *o == offset
                &&& payload_matches(*data, keeps_write_data(level), bytes)
                &&& payload_matches(*after_write, keeps_after_write(level), after)
            },
            _ => false,
        }
    }

    /// The record of an erase of `[from, to)` whose range held `before`, made
    /// at `level`.
    pub open spec fn is_erase_record(
        &self,
        level: TransactionLogLevel,
        from: u32,
        to: u32,
        before: Seq<u8>,
    ) -> bool {
        match self {
            Transaction::Erase { from: f, to: t, data, .. } => {
                &&& *f == from
                &&& *t == to
                &&& payload_matches(*data, keeps_erased_data(level), before)
            },
            _ => false,
        }
    }

    /// Builds a `Read` record; the bytes are kept at `ReadWriteData` and `Full`.
    pub fn read(
        level: TransactionLogLevel,
        offset: u32,
        length: usize,
        data: &[u8],
        operation: Option<O>,
    ) -> (r: Self)
        ensures
            r.is_read_record(level, offset, length, data@),
            r.tag() == operation,
    {
        let data = match level {
            TransactionLogLevel::ReadWriteData | TransactionLogLevel::Full => Some(
                vstd::slice::slice_to_vec(data),
            ),
            _ => None,
        };
        Transaction::Read { offset, length, data, operation }
    }

    /// Builds a `Write` record; the written bytes are kept from
    /// `WriteDataOnly` up, the contents after the write only at `Full`.
    pub fn write(
        level: TransactionLogLevel,
        offset: u32,
        data: &[u8],
        after_write: &[u8],
        operation: Option<O>,
    ) -> (r: Self)
        ensures
            r.is_write_record(level, offset, data@, after_write@),
            r.tag() == operation,
    {
        let data = match level {
            TransactionLogLevel::WriteDataOnly
            | TransactionLogLevel::ReadWriteData
            | TransactionLogLevel::Full => Some(vstd::slice::slice_to_vec(data)),
            _ => None,
        };
        let after_write = match level {
            TransactionLogLevel::Full => Some(vstd::slice::slice_to_vec(after_write)),
            _ => None,
        };
        Transaction::Write { offset, data, after_write, operation }
    }

    /// Builds an `Erase` record; the contents before the erase are kept only
    /// at `Full`.
    pub fn erase(
        level: TransactionLogLevel,
        from: u32,
        to: u32,
        data: &[u8],
        operation: Option<O>,
    ) -> (r: Self)
        ensures
            r.is_erase_record(level, from, to, data@),
            r.tag() == operation,
    {
        let data = match level {
            TransactionLogLevel::Full => Some(vstd::slice::slice_to_vec(data)),
            _ => None,
        };
        Transaction::Erase { from, to, data, operation }
    }
}

} // verus!
