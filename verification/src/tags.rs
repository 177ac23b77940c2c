//! Metadata tags: key/value pairs attached to the mux node, merged under
//! an explicit policy. The embedder sets the single `comment` tag to the
//! caller-supplied bytes with policy Replace; the value passes through
//! opaque, with no escaping, length limiting or charset validation.

use vstd::prelude::*;
use crate::bytes::{bytes_eq, copy_bytes};

verus! {

/// How a value to be merged meets an existing value for the same key.
#[derive(Clone, Copy, Debug, PartialEq, Eq, Structural)]
pub enum TagMergeMode {
    /// Any existing value for the key is overwritten.
    Replace,
    /// The value is added alongside existing values.
    Append,
    /// An existing value for the key wins; otherwise the value is added.
    Keep,
}

/// One metadata entry.
pub struct TagEntry {
    pub key: Vec<u8>,
    pub value: Vec<u8>,
}

/// The metadata attached to a node: an ordered list of entries; one key
/// may hold several values (Append piles them up).
pub struct TagList {
    pub entries: Vec<TagEntry>,
}

/// The entries of a tag list as key/value pairs.
pub open spec fn tags_view(t: TagList) -> Seq<(Seq<u8>, Seq<u8>)> {
    t.entries@.map_values(|e: TagEntry| (e.key@, e.value@))
}

/// `s` without every entry for `k`, other entries in order.
pub open spec fn without_key(s: Seq<(Seq<u8>, Seq<u8>)>, k: Seq<u8>) -> Seq<(Seq<u8>, Seq<u8>)>
    decreases s.len(),
{
    if s.len() == 0 {
        Seq::empty()
    } else {
        let pre = without_key(s.drop_last(), k);
        if s.last().0 == k {
            pre
        } else {
            pre.push(s.last())
        }
    }
}

/// The value `k` holds: that of the most recently merged entry for it.
pub open spec fn value_of(s: Seq<(Seq<u8>, Seq<u8>)>, k: Seq<u8>) -> Option<Seq<u8>>
    decreases s.len(),
{
    if s.len() == 0 {
        None
    } else if s.last().0 == k {
        Some(s.last().1)
    } else {
        value_of(s.drop_last(), k)
    }
}

/// True when some entry holds `k`.
pub open spec fn has_key(s: Seq<(Seq<u8>, Seq<u8>)>, k: Seq<u8>) -> bool {
    value_of(s, k) is Some
}

/// What merging `v` for `k` under `mode` makes of the entries `s`.
pub open spec fn merge_spec(
    s: Seq<(Seq<u8>, Seq<u8>)>,
    k: Seq<u8>,
    v: Seq<u8>,
    mode: TagMergeMode,
) -> Seq<(Seq<u8>, Seq<u8>)> {
    match mode {
        TagMergeMode::Replace => without_key(s, k).push((k, v)),
        TagMergeMode::Append => s.push((k, v)),
        TagMergeMode::Keep => if has_key(s, k) {
            s
        } else {
            s.push((k, v))
        },
    }
}

/// The fixed tag key, `comment` as bytes.
pub open spec fn comment_key() -> Seq<u8> {
    seq![99u8, 111u8, 109u8, 109u8, 101u8, 110u8, 116u8]
}

/// The fixed tag key as a byte string.
pub fn comment_key_bytes() -> (k: Vec<u8>)
    ensures
        k@ == comment_key(),
{
    let k: Vec<u8> = vec![99u8, 111u8, 109u8, 109u8, 101u8, 110u8, 116u8];
    proof {
        assert(k@ =~= comment_key());
    }
    k
}

impl TagList {
    /// An empty tag list.
    pub fn new() -> (t: TagList)
        ensures
            tags_view(t).len() == 0,
    {
        TagList { entries: Vec::new() }
    }

    /// The value `key` currently holds, if any.
    pub fn get_value(&self, key: &Vec<u8>) -> (r: Option<Vec<u8>>)
        ensures
            match r {
                Some(v) => value_of(tags_view(*self), key@) == Some(v@),
                None => value_of(tags_view(*self), key@) is None,
            },
    {
        let mut i: usize = self.entries.len();
        proof {
            assert(tags_view(*self).take(i as int) =~= tags_view(*self));
        }
        while i > 0
            invariant
                i <= self.entries@.len(),
                value_of(tags_view(*self), key@) == value_of(
                    tags_view(*self).take(i as int),
                    key@,
                ),
            decreases i,
        {
            proof {
                assert(tags_view(*self).take(i as int).drop_last() =~= tags_view(*self).take(
                    i - 1,
                ));
                assert(tags_view(*self).take(i as int).last() == tags_view(*self)[i - 1]);
            }
            if bytes_eq(&self.entries[i - 1].key, key) {
                return Some(copy_bytes(&self.entries[i - 1].value));
            }
            i -= 1;
        }
        None
    }

    /// Merges `value` for `key` under `mode`: Replace overwrites every
    /// existing value for the key and leaves other keys untouched; Append
    /// adds the value alongside; Keep adds it only when the key is absent.
    pub fn merge_tag(&mut self, key: &Vec<u8>, value: &Vec<u8>, mode: TagMergeMode)
        ensures
            tags_view(*final(self)) == merge_spec(tags_view(*old(self)), key@, value@, mode),
    {
        match mode {
            TagMergeMode::Replace => {
                let mut kept: Vec<TagEntry> = Vec::new();
                let mut i: usize = 0;
                proof {
                    assert(tags_view(*self).take(0) =~= Seq::<(Seq<u8>, Seq<u8>)>::empty());
                }
                while i < self.entries.len()
                    invariant
                        i <= self.entries@.len(),
                        kept@.map_values(|e: TagEntry| (e.key@, e.value@)) == without_key(
                            tags_view(*self).take(i as int),
                            key@,
                        ),
                        *self == *old(self),
                    decreases self.entries@.len() - i,
                {
                    let ghost pre = tags_view(*self).take(i as int);
                    proof {
                        assert(tags_view(*self).take(i + 1).drop_last() =~= pre);
                        assert(tags_view(*self).take(i + 1).last() == tags_view(*self)[i as int]);
                    }
                    if !bytes_eq(&self.entries[i].key, key) {
                        let e = TagEntry {
                            key: copy_bytes(&self.entries[i].key),
                            value: copy_bytes(&self.entries[i].value),
                        };
                        kept.push(e);
                        proof {
                            assert(kept@.map_values(|e: TagEntry| (e.key@, e.value@))
                                =~= without_key(pre, key@).push(tags_view(*self)[i as int]));
                        }
                    }
                    i += 1;
                }
                proof {
                    assert(tags_view(*self).take(self.entries@.len() as int) =~= tags_view(
                        *self,
                    ));
                }
                kept.push(TagEntry { key: copy_bytes(key), value: copy_bytes(value) });
                self.entries = kept;
                proof {
                    assert(tags_view(*self) =~= without_key(tags_view(*old(self)), key@).push(
                        (key@, value@),
                    ));
                }
            },
            TagMergeMode::Append => {
                self.entries.push(TagEntry { key: copy_bytes(key), value: copy_bytes(value) });
                proof {
                    assert(tags_view(*self) =~= tags_view(*old(self)).push((key@, value@)));
                }
            },
            TagMergeMode::Keep => {
                let present: bool = match self.get_value(key) {
                    Some(_) => true,
                    None => false,
                };
                if !present {
                    self.entries.push(
                        TagEntry { key: copy_bytes(key), value: copy_bytes(value) },
                    );
                    proof {
                        assert(tags_view(*self) =~= tags_view(*old(self)).push((key@, value@)));
                    }
                }
            },
        }
    }
}

/// Attaches the caller-supplied bytes as the single `comment` tag with
/// merge policy Replace: any existing comment value is overwritten and the
/// new value passes through exactly, byte for byte.
pub fn embed_comment(tags: &mut TagList, value: &Vec<u8>)
    ensures
        tags_view(*final(tags)) == merge_spec(
            tags_view(*old(tags)),
            comment_key(),
            value@,
            TagMergeMode::Replace,
        ),
        value_of(tags_view(*final(tags)), comment_key()) == Some(value@),
{
    let key = comment_key_bytes();
    tags.merge_tag(&key, value, TagMergeMode::Replace);
}

/// A Replace merge leaves every other key's value untouched.
pub proof fn lemma_replace_other_keys(
    s: Seq<(Seq<u8>, Seq<u8>)>,
    k: Seq<u8>,
    v: Seq<u8>,
    k2: Seq<u8>,
)
    requires
        k2 != k,
    ensures
        value_of(merge_spec(s, k, v, TagMergeMode::Replace), k2) == value_of(s, k2),
{
    lemma_value_of_without_key(s, k, k2);
    assert(without_key(s, k).push((k, v)).drop_last() =~= without_key(s, k));
}

proof fn lemma_value_of_without_key(s: Seq<(Seq<u8>, Seq<u8>)>, k: Seq<u8>, k2: Seq<u8>)
    requires
        k2 != k,
    ensures
        value_of(without_key(s, k), k2) == value_of(s, k2),
    decreases s.len(),
{
    if s.len() > 0 {
        lemma_value_of_without_key(s.drop_last(), k, k2);
        if s.last().0 == k {
        } else {
            assert(without_key(s.drop_last(), k).push(s.last()).drop_last() =~= without_key(
                s.drop_last(),
                k,
            ));
        }
    }
}

/// Embedding the same value over any two prior tag states yields the same
/// comment payload: the caller-supplied bytes, exactly.
pub proof fn lemma_embed_deterministic(
    a: Seq<(Seq<u8>, Seq<u8>)>,
    b: Seq<(Seq<u8>, Seq<u8>)>,
    v: Seq<u8>,
)
    ensures
        value_of(merge_spec(a, comment_key(), v, TagMergeMode::Replace), comment_key()) == Some(
            v,
        ),
        value_of(merge_spec(a, comment_key(), v, TagMergeMode::Replace), comment_key())
            == value_of(merge_spec(b, comment_key(), v, TagMergeMode::Replace), comment_key()),
{
}

} // verus!
