//! The message record and its numeric identifier.

use vstd::prelude::*;
use crate::channel::ChannelId;
use crate::text::{
    all_dec_chars, digit_run_end, digits_between, is_dec_char, spec_u64_str, str_eq,
    u64_to_string,
};
use crate::user::{spec_user_display, User};

verus! {

/// A message's stable numeric identifier.
#[derive(Clone, Copy, Debug, PartialEq, Eq, Structural)]
pub struct MessageId(pub u64);

impl MessageId {
    /// Renders the identifier in decimal.
    pub fn display(&self) -> (r: String)
        ensures
            r@ == spec_u64_str(self.0 as nat),
    {
        u64_to_string(self.0)
    }
}

impl From<u64> for MessageId {
    fn from(id: u64) -> (r: Self) {
        MessageId(id)
    }
}

impl vstd::std_specs::convert::FromSpecImpl<u64> for MessageId {
    open spec fn obeys_from_spec() -> bool {
        true
    }

    open spec fn from_spec(id: u64) -> Self {
        MessageId(id)
    }
}

/// A message record as the platform reports it. The timestamp is carried as
/// the text the platform sent; `display` renders the common UTC shape.
#[derive(Clone, Debug, PartialEq, Eq)]
pub struct Message {
    pub id: MessageId,
    pub author: User,
    pub content: String,
    pub channel_id: ChannelId,
    pub timestamp: String,
}

/// The mathematical view of a message record.
pub struct MessageView {
    pub id: u64,
    pub author: crate::user::UserView,
    pub content: Seq<char>,
    pub channel_id: u64,
    pub timestamp: Seq<char>,
}

impl View for Message {
    type V = MessageView;

    open spec fn view(&self) -> MessageView {
        MessageView {
            id: self.id.0,
            author: self.author@,
            content: self.content@,
            channel_id: self.channel_id.0,
            timestamp: self.timestamp@,
        }
    }
}

/// A UTC zone suffix of a timestamp: `Z` or `+00:00`.
pub open spec fn spec_utc_zone(t: Seq<char>) -> bool {
    t == "Z"@ || t == "+00:00"@
}

/// What may follow the seconds of a UTC timestamp: the zone alone, or a
/// `.` with at least one fraction digit and then the zone.
pub open spec fn spec_utc_suffix(t: Seq<char>) -> bool {
    ||| spec_utc_zone(t)
    ||| (t.len() >= 2 && t[0] == '.' && (exists|k: int|
        2 <= k <= t.len() && all_dec_chars(#[trigger] t.subrange(1, k)) && spec_utc_zone(
            t.skip(k),
        )))
}

/// ISO-8601 date-time text at UTC — `YYYY-MM-DDTHH:MM:SS`, an optional
/// fraction, and the zone `Z` or `+00:00` — the shape the platform sends.
pub open spec fn spec_is_utc_iso(s: Seq<char>) -> bool {
    &&& s.len() >= 20
    &&& all_dec_chars(s.subrange(0, 4)) && s[4] == '-'
    &&& all_dec_chars(s.subrange(5, 7)) && s[7] == '-'
    &&& all_dec_chars(s.subrange(8, 10)) && s[10] == 'T'
    &&& all_dec_chars(s.subrange(11, 13)) && s[13] == ':'
    &&& all_dec_chars(s.subrange(14, 16)) && s[16] == ':'
    &&& all_dec_chars(s.subrange(17, 19))
    &&& spec_utc_suffix(s.skip(19))
}

/// What `Message::display` shows for a timestamp: UTC ISO-8601 text as
/// `YYYY-MM-DD HH:MM:SS` — the date and the whole-second time, separated
/// by a space — and any other text as it stands.
pub open spec fn spec_display_timestamp(s: Seq<char>) -> Seq<char> {
    if spec_is_utc_iso(s) {
        s.subrange(0, 10) + " "@ + s.subrange(11, 19)
    } else {
        s
    }
}

fn utc_zone(t: &str) -> (r: bool)
    ensures
        r == spec_utc_zone(t@),
{
    if str_eq(t, "Z") {
        true
    } else {
        str_eq(t, "+00:00")
    }
}

fn utc_suffix_at(s: &str) -> (r: bool)
    requires
        s@.len() >= 20,
    ensures
        r == spec_utc_suffix(s@.skip(19)),
{
    let n = s.unicode_len();
    let ghost t: Seq<char> = s@.skip(19);
    proof {
        reveal_strlit("Z");
        reveal_strlit("+00:00");
        assert("Z"@.len() == 1);
        assert("+00:00"@.len() == 6);
        assert("Z"@[0] == 'Z');
        assert("+00:00"@[0] == '+');
        assert('Z' as u32 == 90);
        assert('+' as u32 == 43);
        assert('.' as u32 == 46);
    }
    if s.get_char(19) == '.' {
        let k = digit_run_end(s, 20);
        if k == 20 {
            proof {
                assert(!spec_utc_zone(t)) by {
                    assert(t[0] == '.');
                }
                assert forall|kk: int|
                    2 <= kk <= t.len() && all_dec_chars(#[trigger] t.subrange(1, kk)) implies
                    !spec_utc_zone(t.skip(kk)) by {
                    assert(t.subrange(1, kk)[0] == s@[20]);
                    assert(is_dec_char(s@[20]));
                }
            }
            false
        } else {
            let z = utc_zone(s.substring_char(k, n));
            proof {
                let gk: int = k - 19;
                assert(s@.subrange(k as int, n as int) =~= t.skip(gk));
                assert(!spec_utc_zone(t)) by {
                    assert(t[0] == '.');
                }
                if z {
                    assert(all_dec_chars(t.subrange(1, gk))) by {
                        assert forall|j: int|
                            0 <= j < gk - 1 implies is_dec_char(
                            #[trigger] t.subrange(1, gk)[j],
                        ) by {
                            assert(t.subrange(1, gk)[j] == s@[20 + j]);
                        }
                    }
                    assert(spec_utc_suffix(t));
                } else {
                    assert forall|kk: int|
                        2 <= kk <= t.len() && all_dec_chars(#[trigger] t.subrange(1, kk))
                        implies !spec_utc_zone(t.skip(kk)) by {
                        if kk < gk {
                            assert(is_dec_char(s@[19 + kk]));
                            if spec_utc_zone(t.skip(kk)) {
                                assert(t.skip(kk)[0] == s@[19 + kk]);
                                assert(t.skip(kk)[0] == 'Z' || t.skip(kk)[0] == '+');
                                assert(false);
                            }
                        } else if kk > gk {
                            assert(k < n);
                            assert(!is_dec_char(s@[k as int]));
                            assert(t.subrange(1, kk)[gk - 1] == s@[k as int]);
                            assert(false);
                        } else {
                            assert(t.skip(kk) == t.skip(gk));
                        }
                    }
                }
            }
            z
        }
    } else {
        let z = utc_zone(s.substring_char(19, n));
        proof {
            assert(s@.subrange(19, n as int) =~= t);
            if !z {
                assert(t[0] == s@[19]);
                assert(t[0] != '.');
            }
        }
        z
    }
}

fn is_utc_iso(s: &str) -> (r: bool)
    ensures
        r == spec_is_utc_iso(s@),
{
    let n = s.unicode_len();
    if n < 20 {
        return false;
    }
    if !(s.get_char(4) == '-' && s.get_char(7) == '-' && s.get_char(10) == 'T' && s.get_char(13)
        == ':' && s.get_char(16) == ':') {
        return false;
    }
    if !(digits_between(s, 0, 4) && digits_between(s, 5, 7) && digits_between(s, 8, 10)
        && digits_between(s, 11, 13) && digits_between(s, 14, 16) && digits_between(
        s,
        17,
        19,
    )) {
        return false;
    }
    utc_suffix_at(s)
}

/// Renders a timestamp as `display` shows it.
fn format_timestamp(s: &str) -> (r: String)
    ensures
        r@ == spec_display_timestamp(s@),
{
    if is_utc_iso(s) {
        s.substring_char(0, 10).to_owned().concat(" ").concat(s.substring_char(11, 19))
    } else {
        s.to_owned()
    }
}

impl Message {
    /// Renders the message as `[timestamp] author: content`, with a UTC
    /// ISO-8601 timestamp shown as its date and whole-second time.
    pub fn display(&self) -> (r: String)
        ensures
            r@ == "["@ + spec_display_timestamp(self.timestamp@) + "] "@ + spec_user_display(
                self.author,
            ) + ": "@ + self.content@,
    {
        "[".to_owned().concat(format_timestamp(self.timestamp.as_str()).as_str()).concat(
            "] ",
        ).concat(self.author.display().as_str()).concat(": ").concat(self.content.as_str())
    }
}

} // verus!
