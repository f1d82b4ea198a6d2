//! Logical channels: category tags on emitted events, orthogonal to
//! severity, used only for routing overrides.

use vstd::prelude::*;

verus! {

/// A named logical category attached to an emitted event. Channels are not
/// ordered; they only select which routing rule applies.
#[derive(Clone, Copy, Debug, PartialEq, Eq, Structural)]
pub enum Channel {
    /// Ordinary instrumentation, governed by the configured minimum.
    Default,
    /// Operator-facing announcements that must stay visible at info urgency.
    Info,
    /// Operator-facing announcements that must stay visible at warn urgency.
    Warn,
    /// The pipeline's own out-of-band error reports.
    Error,
}

/// The channel denoted by a tag: the exact names `info`, `warn` and `error`
/// select their channels; every other tag falls to the default channel.
pub open spec fn channel_of_tag(s: Seq<char>) -> Channel {
    if s == "info"@ {
        Channel::Info
    } else if s == "warn"@ {
        Channel::Warn
    } else if s == "error"@ {
        Channel::Error
    } else {
        Channel::Default
    }
}

impl Channel {
    /// The tag under which the channel is named on an event.
    pub open spec fn tag_spec(self) -> Seq<char> {
        match self {
            Channel::Default => "default"@,
            Channel::Info => "info"@,
            Channel::Warn => "warn"@,
            Channel::Error => "error"@,
        }
    }

    /// The tag under which the channel is named, for record rendering.
    pub fn tag(self) -> (r: &'static str)
        ensures
            r@ == self.tag_spec(),
    {
        match self {
            Channel::Default => "default",
            Channel::Info => "info",
            Channel::Warn => "warn",
            Channel::Error => "error",
        }
    }

    /// Resolves a caller-supplied tag to its channel.
    pub fn from_tag(tag: &str) -> (c: Channel)
        ensures
            c == channel_of_tag(tag@),
    {
        if str_eq(tag, "info") {
            Channel::Info
        } else if str_eq(tag, "warn") {
            Channel::Warn
        } else if str_eq(tag, "error") {
            Channel::Error
        } else {
            Channel::Default
        }
    }
}

/// Decides exact equality of two texts, character by character.
fn str_eq(a: &str, b: &str) -> (r: bool)
    ensures
        r == (a@ == b@),
{
    let n = a.unicode_len();
    if n != b.unicode_len() {
        return false;
    }
    let mut i: usize = 0;
    while i < n
        invariant
            n == a@.len(),
            n == b@.len(),
            i <= n,
            forall|j: int| 0 <= j < i ==> a@[j] == b@[j],
        decreases n - i,
    {
        if a.get_char(i) != b.get_char(i) {
            assert(a@[i as int] != b@[i as int]);
            return false;
        }
        i += 1;
    }
    proof {
        assert(a@ =~= b@);
    }
    true
}

} // verus!
