//! Key/value metadata attached to every event, given on the command line
//! as `key=value` tokens.

use vstd::prelude::*;
use vstd::string::{StrSliceExecFns, StringExecFns};

verus! {

/// Position `i` holds the only `=` of `raw`, with at least one character
/// on each side of it.
pub open spec fn sole_separator(raw: Seq<char>, i: int) -> bool {
    &&& 0 < i < raw.len() - 1
    &&& raw[i] == '='
    &&& forall|j: int| 0 <= j < raw.len() && j != i ==> raw[j] != '='
}

/// `raw` is a `key=value` pair: exactly one `=`, and neither side empty.
pub open spec fn is_valid_pair(raw: Seq<char>) -> bool {
    exists|i: int| sole_separator(raw, i)
}

/// The key and the value of a valid pair.
pub open spec fn split_pair(raw: Seq<char>) -> Option<(Seq<char>, Seq<char>)> {
    if is_valid_pair(raw) {
        let i = choose|i: int| sole_separator(raw, i);
        Some((raw.subrange(0, i), raw.subrange(i + 1, raw.len() as int)))
    } else {
        None
    }
}

/// The message that rejects an invalid pair; it quotes the token.
pub open spec fn invalid_pair_message(raw: Seq<char>) -> Seq<char> {
    "Invalid key-value pair given (must be '='-delimited pair of non-empty strings): "@ + raw
}

/// A valid pair has a single separator position.
proof fn lemma_sole_separator_unique(raw: Seq<char>, i: int, j: int)
    requires
        sole_separator(raw, i),
        sole_separator(raw, j),
    ensures
        i == j,
{
    if i != j {
        assert(raw[j] != '=');
    }
}

/// A valid pair is its key, one `=`, and its value, with no other `=` and
/// neither side empty; an invalid token has no split.
pub proof fn lemma_split_pair_shape(raw: Seq<char>)
    ensures
        split_pair(raw) is None <==> !is_valid_pair(raw),
        split_pair(raw) matches Some(p) ==> {
            &&& raw =~= p.0 + seq!['='] + p.1
            &&& p.0.len() > 0 && p.1.len() > 0
            &&& !p.0.contains('=') && !p.1.contains('=')
        },
{
    if is_valid_pair(raw) {
        let i = choose|i: int| sole_separator(raw, i);
        let k = raw.subrange(0, i);
        let v = raw.subrange(i + 1, raw.len() as int);
        assert(raw =~= k + seq!['='] + v);
        assert(!k.contains('=')) by {
            if k.contains('=') {
                let j = choose|j: int| 0 <= j < k.len() && k[j] == '=';
                assert(raw[j] == '=');
            }
        }
        assert(!v.contains('=')) by {
            if v.contains('=') {
                let j = choose|j: int| 0 <= j < v.len() && v[j] == '=';
                assert(raw[i + 1 + j] == '=');
            }
        }
    }
}

/// Arbitrary key/value metadata to attach to all events, in the order given.
#[derive(Clone, Debug, Default)]
pub struct EventStreamMetadata(Vec<(String, String)>);

impl View for EventStreamMetadata {
    type V = Seq<(Seq<char>, Seq<char>)>;

    closed spec fn view(&self) -> Seq<(Seq<char>, Seq<char>)> {
        self.0@.map_values(|p: (String, String)| (p.0@, p.1@))
    }
}

impl EventStreamMetadata {
    /// The name of the command-line argument that carries these tokens.
    pub const ARG_NAME: &'static str = "EVENT_STREAM_METADATA";

    /// Checks one command-line token: `Ok` exactly when it is a valid pair,
    /// else the message that names the token.
    pub fn validate(value: String) -> (r: Result<(), String>)
        ensures
            r is Ok <==> is_valid_pair(value@),
            r matches Err(e) ==> e@ == invalid_pair_message(value@),
    {
        match Self::split_raw(value.as_str()) {
            Ok(_) => Ok(()),
            Err(e) => Err(e),
        }
    }

    /// Splits a `key=value` token into its key and its value.
    pub fn split_raw(raw: &str) -> (r: Result<(String, String), String>)
        ensures
            r is Ok <==> is_valid_pair(raw@),
            r matches Ok(p) ==> split_pair(raw@) == Some((p.0@, p.1@)),
            r matches Err(e) ==> e@ == invalid_pair_message(raw@),
    {
        let n = raw.unicode_len();
        let mut i: usize = 0;
        let mut count: usize = 0;
        let mut pos: usize = 0;
        while i < n
            invariant
                n == raw@.len(),
                i <= n,
                count <= 2,
                count == 0 ==> forall|j: int| 0 <= j < i ==> raw@[j] != '=',
                count >= 1 ==> pos < i && raw@[pos as int] == '=',
                count >= 1 ==> forall|j: int| 0 <= j < pos ==> raw@[j] != '=',
                count == 1 ==> forall|j: int| 0 <= j < i && j != pos ==> raw@[j] != '=',
                count == 2 ==> exists|j: int| pos < j < i && raw@[j] == '=',
            decreases n - i,
        {
            if raw.get_char(i) == '=' {
                if count == 0 {
                    pos = i;
                    count = 1;
                } else {
                    assert(raw@[i as int] == '=');
                    count = 2;
                }
            }
            i = i + 1;
        }
        if count == 1 && 0 < pos && pos + 1 < n {
            assert(sole_separator(raw@, pos as int));
            proof {
                let c = choose|c: int| sole_separator(raw@, c);
                lemma_sole_separator_unique(raw@, pos as int, c);
            }
            let key = raw.substring_char(0, pos);
            let value = raw.substring_char(pos + 1, n);
            Ok((String::from_str(key), String::from_str(value)))
        } else {
            assert forall|c: int| !sole_separator(raw@, c) by {
                if sole_separator(raw@, c) {
                    if count == 2 {
                        let j = choose|j: int| pos < j < i && raw@[j] == '=';
                        assert(raw@[pos as int] == '=');
                    } else if count == 1 {
                        assert(raw@[pos as int] == '=');
                    } else {
                        assert(raw@[c] == '=');
                    }
                }
            }
            let mut message = String::from_str(
                "Invalid key-value pair given (must be '='-delimited pair of non-empty strings): ",
            );
            message.append(raw);
            Err(message)
        }
    }

    /// Collects the pairs of tokens that have each passed `validate`, in order.
    pub fn from_validated(values: &Vec<String>) -> (r: Self)
        requires
            forall|i: int| 0 <= i < values@.len() ==> is_valid_pair(#[trigger] values@[i]@),
        ensures
            r@.len() == values@.len(),
            forall|i: int| 0 <= i < values@.len() ==> split_pair(#[trigger] values@[i]@) == Some(r@[i]),
    {
        let mut pairs: Vec<(String, String)> = Vec::new();
        let mut i: usize = 0;
        while i < values.len()
            invariant
                i <= values@.len(),
                pairs@.len() == i,
                forall|j: int| 0 <= j < values@.len() ==> is_valid_pair(#[trigger] values@[j]@),
                forall|j: int|
                    0 <= j < i ==> split_pair(#[trigger] values@[j]@) == Some(
                        (pairs@[j].0@, pairs@[j].1@),
                    ),
            decreases values@.len() - i,
        {
            let pair = Self::split_validated(values[i].as_str());
            pairs.push(pair);
            i = i + 1;
        }
        let r = EventStreamMetadata(pairs);
        assert forall|j: int| 0 <= j < values@.len() implies split_pair(#[trigger] values@[j]@) == Some(
            r@[j],
        ) by {
            assert(r@[j] == (pairs@[j].0@, pairs@[j].1@));
        }
        r
    }

    /// The pairs, in the order they were given.
    pub fn into_pairs(self) -> (r: Vec<(String, String)>)
        ensures
            r@.map_values(|p: (String, String)| (p.0@, p.1@)) == self@,
    {
        self.0
    }

    /// `split_raw` for a token already known to be valid.
    pub fn split_validated(validated_input: &str) -> (r: (String, String))
        requires
            is_valid_pair(validated_input@),
        ensures
            split_pair(validated_input@) == Some((r.0@, r.1@)),
    {
        match Self::split_raw(validated_input) {
            Ok(p) => p,
            Err(_) => {
                assert(false);
                (String::new(), String::new())
            },
        }
    }
}

} // verus!
