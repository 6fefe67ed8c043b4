use vstd::prelude::*;

use crate::filter::FilterMode;

verus! {

/// A hotkey chord as written in the configuration, e.g. `Ctrl+Alt+G`: one
/// key character and the names of the modifiers held with it.
pub struct KeySequence {
    pub key: char,
    pub modifiers: Vec<String>,
}

#[derive(Debug, Clone, Copy, PartialEq, Eq, Structural)]
pub enum KeySequenceError {
    /// No token of the chord names a single key.
    NoVirtualKey,
}

/// A configuration snapshot. A change of any field replaces the whole pipeline.
pub struct Config {
    pub toggle: KeySequence,
    pub freeze: KeySequence,
    pub mode: FilterMode,
    pub launch_on_startup: bool,
    pub refresh_rate: u32,
}

/// The `+`-separated tokens of `s`, empty ones included; never empty itself.
pub open spec fn split_plus(s: Seq<char>) -> Seq<Seq<char>>
    decreases s.len(),
{
    if s.len() == 0 {
        seq![Seq::empty()]
    } else {
        let parts = split_plus(s.drop_last());
        if s.last() == '+' {
            parts.push(Seq::empty())
        } else {
            parts.update(parts.len() - 1, parts.last().push(s.last()))
        }
    }
}

/// A token names a key when it is one byte long: a single ASCII character.
pub open spec fn is_key_token(t: Seq<char>) -> bool {
    t.len() == 1 && (t[0] as u32) < 128
}

/// The character of the last key token; later ones override earlier ones.
pub open spec fn last_key(tokens: Seq<Seq<char>>) -> Option<char>
    decreases tokens.len(),
{
    if tokens.len() == 0 {
        None
    } else if is_key_token(tokens.last()) {
        Some(tokens.last()[0])
    } else {
        last_key(tokens.drop_last())
    }
}

/// The tokens that are not keys, in order: the modifier names.
pub open spec fn modifier_names(tokens: Seq<Seq<char>>) -> Seq<Seq<char>>
    decreases tokens.len(),
{
    if tokens.len() == 0 {
        Seq::empty()
    } else if is_key_token(tokens.last()) {
        modifier_names(tokens.drop_last())
    } else {
        modifier_names(tokens.drop_last()).push(tokens.last())
    }
}

proof fn lemma_split_plus_not_empty(s: Seq<char>)
    ensures
        split_plus(s).len() >= 1,
    decreases s.len(),
{
    if s.len() > 0 {
        lemma_split_plus_not_empty(s.drop_last());
    }
}

fn absorb_token(
    t: &str,
    key: &mut Option<char>,
    modifiers: &mut Vec<String>,
    Ghost(done): Ghost<Seq<Seq<char>>>,
)
    requires
        *old(key) == last_key(done),
        old(modifiers)@.map_values(|m: String| m@) == modifier_names(done),
    ensures
        *final(key) == last_key(done.push(t@)),
        final(modifiers)@.map_values(|m: String| m@) == modifier_names(done.push(t@)),
{
    assert(done.push(t@).drop_last() =~= done);
    let n: usize = t.unicode_len();
    if n == 1 && (t.get_char(0) as u32) < 128 {
        *key = Some(t.get_char(0));
    } else {
        let ghost before = modifiers@;
        modifiers.push(t.to_owned());
        assert(modifiers@.map_values(|m: String| m@) =~= before.map_values(|m: String| m@).push(
            t@,
        ));
    }
}

impl KeySequence {
    /// Reads a chord such as `Ctrl+Shift+G`: every `+`-separated token that is
    /// a single ASCII character names the key (the last one wins), every
    /// other token is kept as a modifier name, in order.
    pub fn parse(s: &str) -> (r: Result<KeySequence, KeySequenceError>)
        ensures
            last_key(split_plus(s@)) is None ==> r == Err::<KeySequence, KeySequenceError>(
                KeySequenceError::NoVirtualKey,
            ),
            last_key(split_plus(s@)) matches Some(k) ==> r matches Ok(seq) && seq.key == k
                && seq.modifiers@.map_values(|m: String| m@) == modifier_names(split_plus(s@)),
    {
        let n: usize = s.unicode_len();
        let mut key: Option<char> = None;
        let mut modifiers: Vec<String> = Vec::new();
        let mut start: usize = 0;
        let mut i: usize = 0;
        proof {
            assert(s@.take(0) =~= Seq::<char>::empty());
            assert(modifiers@.map_values(|m: String| m@) =~= Seq::<Seq<char>>::empty());
        }
        while i < n
            invariant
                n == s@.len(),
                start <= i <= n,
                split_plus(s@.take(i as int)).last() == s@.subrange(start as int, i as int),
                key == last_key(split_plus(s@.take(i as int)).drop_last()),
                modifiers@.map_values(|m: String| m@) == modifier_names(
                    split_plus(s@.take(i as int)).drop_last(),
                ),
            decreases n - i,
        {
            let c = s.get_char(i);
            let ghost before = split_plus(s@.take(i as int));
            proof {
                lemma_split_plus_not_empty(s@.take(i as int));
                assert(s@.take(i + 1).drop_last() =~= s@.take(i as int));
                assert(s@.take(i + 1).last() == c);
            }
            if c == '+' {
                let t = s.substring_char(start, i);
                absorb_token(t, &mut key, &mut modifiers, Ghost(before.drop_last()));
                proof {
                    assert(before.drop_last().push(before.last()) =~= before);
                    assert(split_plus(s@.take(i + 1)).drop_last() =~= before);
                    assert(s@.subrange(i + 1, i + 1) =~= Seq::<char>::empty());
                }
                start = i + 1;
            } else {
                proof {
                    let after = split_plus(s@.take(i + 1));
                    assert(after.drop_last() =~= before.drop_last());
                    assert(s@.subrange(start as int, i + 1) =~= s@.subrange(start as int, i as int).push(c));
                }
            }
            i = i + 1;
        }
        let t = s.substring_char(start, n);
        let ghost tokens = split_plus(s@.take(n as int));
        proof {
            lemma_split_plus_not_empty(s@.take(n as int));
            assert(s@.take(n as int) =~= s@);
        }
        absorb_token(t, &mut key, &mut modifiers, Ghost(tokens.drop_last()));
        proof {
            assert(tokens.drop_last().push(tokens.last()) =~= tokens);
        }
        match key {
            Some(k) => Ok(KeySequence { key: k, modifiers }),
            None => Err(KeySequenceError::NoVirtualKey),
        }
    }
}

} // verus!
