use vstd::prelude::*;

verus! {

/// The character of a destination that stands for one character of an origin
/// topic: a segment separator becomes a dash, anything else is kept.
pub open spec fn destination_char(c: char) -> char {
    if c == '/' {
        '-'
    } else {
        c
    }
}

/// The destination derived from an origin topic, character by character.
pub open spec fn destination_of(topic: Seq<char>) -> Seq<char> {
    topic.map_values(|c: char| destination_char(c))
}

/// Relies on `String::push`: it appends the character at the end of the string.
pub assume_specification[ String::push ](s: &mut String, ch: char)
    ensures
        final(s)@ == old(s)@.push(ch),
;

/// Derives the destination of an inbound topic by replacing every `/` with `-`.
pub fn mqtt_to_kafka_topic(v: &str) -> (r: String)
    ensures
        r@ == destination_of(v@),
{
    let mut out = String::new();
    for c in it: v.chars()
        invariant
            it.seq() == v@,
            out@ == destination_of(v@.take(it.index() as int)),
    {
        proof {
            assert(v@.take(it.index() + 1) == v@.take(it.index() as int).push(c));
        }
        if c == '/' {
            out.push('-');
        } else {
            out.push(c);
        }
    }
    proof {
        assert(v@.take(v@.len() as int) == v@);
    }
    out
}

/// Deriving a destination twice gives what deriving it once gives. This
/// holds of every topic; on a topic without `/` derivation changes nothing.
pub proof fn destination_is_idempotent(x: Seq<char>)
    ensures
        destination_of(destination_of(x)) == destination_of(x),
        !x.contains('/') ==> destination_of(x) == x,
{
    assert(destination_of(destination_of(x)) =~= destination_of(x));
    if !x.contains('/') {
        assert forall|i: int| 0 <= i < x.len() implies #[trigger] destination_of(x)[i] == x[i] by {
            if x[i] == '/' {
                assert(x.contains('/'));
            }
        }
        assert(destination_of(x) =~= x);
    }
}

/// A destination holds no `/` and is exactly as long as its topic.
pub proof fn destination_has_no_separator(t: Seq<char>)
    ensures
        !destination_of(t).contains('/'),
        destination_of(t).len() == t.len(),
{
    if destination_of(t).contains('/') {
        let i = choose|i: int| 0 <= i < destination_of(t).len() && destination_of(t)[i] == '/';
        assert(destination_of(t)[i] == destination_char(t[i]));
    }
}

} // verus!
