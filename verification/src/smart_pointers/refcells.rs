use crate::rounding::as_double;
use crate::rounding::nearest_double;
use vstd::prelude::*;

verus! {

/// Something that can be told a message.
pub trait Messenger {
    fn send(&self, msg: &str);
}

/// Watches a value against a quota and tells a messenger when the value
/// comes near the quota or passes it.
pub struct LimitTracker<'a, T: Messenger> {
    messenger: &'a T,
    value: usize,
    max: usize,
}

/// Whether the quotient of the doubles `a` and `b`, rounded to a double,
/// is 1 at least: whether `a / b` reaches the middle between 1 and the
/// double below it.
pub open spec fn ratio_is_whole(a: nat, b: nat) -> bool {
    a * 0x40_0000_0000_0000 >= 0x3F_FFFF_FFFF_FFFF * b
}

/// Whether the quotient of the doubles `a` and `b`, rounded to a double,
/// is at least the double nearest to 0.9: whether `a / b` lies above the
/// middle between that double and the one below it.
pub open spec fn ratio_is_nine_tenths(a: nat, b: nat) -> bool {
    a * 0x40_0000_0000_0000 > 16212958658533785 * b
}

/// Whether the quotient of the doubles `a` and `b`, rounded to a double,
/// is 0.75 at least: whether `a / b` reaches the middle between 0.75 and
/// the double below it.
pub open spec fn ratio_is_three_quarters(a: nat, b: nat) -> bool {
    a * 0x40_0000_0000_0000 >= 13510798882111487 * b
}

/// The message that a value calls for under a quota of `max`, by the ratio
/// of the two in double precision: an error where the ratio is 1 at least,
/// an urgent warning where it is 0.9 at least, a warning where it is 0.75
/// at least, and none below that. With a quota of zero every value but zero
/// is over it, and zero calls for nothing.
pub open spec fn quota_message(value: nat, max: nat) -> Option<Seq<char>> {
    let a = as_double(value);
    let b = as_double(max);
    if b == 0 {
        if a == 0 {
            None
        } else {
            Some("Error: You are over your quota"@)
        }
    } else if ratio_is_whole(a, b) {
        Some("Error: You are over your quota"@)
    } else if ratio_is_nine_tenths(a, b) {
        Some("Urgent warning: You've over 90% of your quota"@)
    } else if ratio_is_three_quarters(a, b) {
        Some("Warning: You've used 75% of your quota"@)
    } else {
        None
    }
}

/// Under a quota below 2^51 the rounding of the ratio decides nothing: a
/// value below 2^53 calls for the error from the whole quota on, for the
/// urgent warning from nine tenths of it, for the warning from three
/// quarters of it, and for nothing below that.
pub proof fn lemma_small_quota(value: nat, max: nat)
    requires
        value < 0x20_0000_0000_0000,
        0 < max < 0x8_0000_0000_0000,
    ensures
        quota_message(value, max) == if value >= max {
            Some("Error: You are over your quota"@)
        } else if 10 * value >= 9 * max {
            Some("Urgent warning: You've over 90% of your quota"@)
        } else if 4 * value >= 3 * max {
            Some("Warning: You've used 75% of your quota"@)
        } else {
            None
        },
{
    assert(as_double(value) == value && as_double(max) == max) by {
        assert(value / 1 == value && max / 1 == max);
    }
}

/// The message that `value` calls for under a quota of `max`.
pub fn quota_notice(value: usize, max: usize) -> (notice: Option<&'static str>)
    ensures
        match notice {
            Some(message) => quota_message(value as nat, max as nat) == Some(message@),
            None => quota_message(value as nat, max as nat) is None,
        },
{
    let a: u128 = nearest_double(value as u64);
    let b: u128 = nearest_double(max as u64);
    if b == 0 {
        if a == 0 {
            None
        } else {
            Some("Error: You are over your quota")
        }
    } else if a * 0x40_0000_0000_0000 >= 0x3F_FFFF_FFFF_FFFF * b {
        Some("Error: You are over your quota")
    } else if a * 0x40_0000_0000_0000 > 16212958658533785 * b {
        Some("Urgent warning: You've over 90% of your quota")
    } else if a * 0x40_0000_0000_0000 >= 13510798882111487 * b {
        Some("Warning: You've used 75% of your quota")
    } else {
        None
    }
}

impl<'a, T: Messenger> LimitTracker<'a, T> {
    /// The value last set.
    pub closed spec fn value(&self) -> usize {
        self.value
    }

    /// The quota.
    pub closed spec fn max(&self) -> usize {
        self.max
    }

    /// The messenger that is told.
    pub closed spec fn messenger(&self) -> &'a T {
        self.messenger
    }

    /// A tracker with the quota `max` and the value 0, which tells `messenger`.
    pub fn new(messenger: &'a T, max: usize) -> (tracker: LimitTracker<'a, T>)
        ensures
            tracker.value() == 0,
            tracker.max() == max,
            tracker.messenger() == messenger,
    {
        LimitTracker { messenger, value: 0, max }
    }

    /// Sets the value, sends the messenger the message that the value calls
    /// for under the quota, and returns what was sent.
    pub fn set_value(&mut self, value: usize) -> (sent: Option<&'static str>)
        ensures
            final(self).value() == value,
            final(self).max() == old(self).max(),
            final(self).messenger() == old(self).messenger(),
            match sent {
                Some(message) => quota_message(value as nat, old(self).max() as nat) == Some(
                    message@,
                ),
                None => quota_message(value as nat, old(self).max() as nat) is None,
            },
    {
        self.value = value;
        let notice = quota_notice(self.value, self.max);
        match notice {
            Some(message) => self.messenger.send(message),
            None => {},
        }
        notice
    }
}

/// The exercise on interior mutability: it does nothing.
pub fn entry_point() {
}

} // verus!
