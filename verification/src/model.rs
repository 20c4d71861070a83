use vstd::prelude::*;

verus! {

/// One observation of a message-queue workload.
///
/// The instant is held as its RFC 3339 text, the form in which it is bound
/// to a statement and compared by the store. The two measurements are held
/// as the IEEE 754 bit patterns of their double-precision values, so that a
/// record is carried through unchanged, bit for bit.
#[derive(Clone, Debug)]
pub struct MQLogUsage {
    pub date_time: String,
    pub date: String,
    pub minute: String,
    pub system_name: String,
    pub mq_function: String,
    pub work_total: u64,
    pub trans_per_sec: u64,
}

/// Bit pattern of positive infinity: the largest pattern of a double that
/// is neither negative nor a NaN.
pub const POSITIVE_INFINITY_BITS: u64 = 0x7FF0_0000_0000_0000;

/// Bit pattern of negative zero, which compares equal to zero.
pub const NEGATIVE_ZERO_BITS: u64 = 0x8000_0000_0000_0000;

/// Whether a bit pattern stands for a double that is at least zero.
pub open spec fn is_non_negative(bits: u64) -> bool {
    bits <= POSITIVE_INFINITY_BITS || bits == NEGATIVE_ZERO_BITS
}

impl MQLogUsage {
    /// The record that stands for one row of a summary: the instant and the
    /// summed throughput; the names are empty and the work total is zero.
    pub fn summary_row(date_time: String, trans_per_sec: u64) -> (row: MQLogUsage)
        ensures
            row.date_time == date_time,
            row.trans_per_sec == trans_per_sec,
            row.work_total == 0,
            row.date@.len() == 0,
            row.minute@.len() == 0,
            row.system_name@.len() == 0,
            row.mq_function@.len() == 0,
    {
        MQLogUsage {
            date_time,
            date: String::new(),
            minute: String::new(),
            system_name: String::new(),
            mq_function: String::new(),
            work_total: 0,
            trans_per_sec,
        }
    }

    /// What holds of every record that the store persists: it names its
    /// function and its system, and its throughput is not negative.
    pub open spec fn is_persisted(&self) -> bool {
        &&& self.mq_function@.len() > 0
        &&& self.system_name@.len() > 0
        &&& is_non_negative(self.trans_per_sec)
    }

    /// Tests whether the record may stand in the store.
    pub fn check_persisted(&self) -> (ok: bool)
        ensures
            ok == self.is_persisted(),
    {
        !self.mq_function.as_str().is_empty() && !self.system_name.as_str().is_empty() && (
        self.trans_per_sec <= POSITIVE_INFINITY_BITS || self.trans_per_sec == NEGATIVE_ZERO_BITS)
    }
}

} // verus!
