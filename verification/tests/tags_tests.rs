use remux_tag::tags::{embed_comment, TagList, TagMergeMode};

#[test]
fn embed_sets_comment_exactly() {
    let mut tags = TagList::new();
    embed_comment(&mut tags, &b"hello world".to_vec());
    assert_eq!(tags.get_value(&b"comment".to_vec()), Some(b"hello world".to_vec()));
}

#[test]
fn embed_passes_bytes_through_untouched() {
    let mut tags = TagList::new();
    let value = b"\x00\xffodd \"bytes\" <&> \n".to_vec();
    embed_comment(&mut tags, &value);
    assert_eq!(tags.get_value(&b"comment".to_vec()), Some(value));
}

#[test]
fn embed_overwrites_previous_comment_only() {
    let mut tags = TagList::new();
    tags.merge_tag(&b"artist".to_vec(), &b"someone".to_vec(), TagMergeMode::Append);
    tags.merge_tag(&b"comment".to_vec(), &b"old".to_vec(), TagMergeMode::Append);
    embed_comment(&mut tags, &b"new".to_vec());
    assert_eq!(tags.get_value(&b"comment".to_vec()), Some(b"new".to_vec()));
    assert_eq!(tags.get_value(&b"artist".to_vec()), Some(b"someone".to_vec()));
}

#[test]
fn keep_mode_prefers_existing_value() {
    let mut tags = TagList::new();
    tags.merge_tag(&b"k".to_vec(), &b"first".to_vec(), TagMergeMode::Keep);
    tags.merge_tag(&b"k".to_vec(), &b"second".to_vec(), TagMergeMode::Keep);
    assert_eq!(tags.get_value(&b"k".to_vec()), Some(b"first".to_vec()));
}

#[test]
fn append_mode_piles_up_and_latest_wins() {
    let mut tags = TagList::new();
    tags.merge_tag(&b"k".to_vec(), &b"a".to_vec(), TagMergeMode::Append);
    tags.merge_tag(&b"k".to_vec(), &b"b".to_vec(), TagMergeMode::Append);
    assert_eq!(tags.entries.len(), 2);
    assert_eq!(tags.get_value(&b"k".to_vec()), Some(b"b".to_vec()));
}

#[test]
fn replace_mode_drops_every_older_value() {
    let mut tags = TagList::new();
    tags.merge_tag(&b"k".to_vec(), &b"a".to_vec(), TagMergeMode::Append);
    tags.merge_tag(&b"k".to_vec(), &b"b".to_vec(), TagMergeMode::Append);
    tags.merge_tag(&b"k".to_vec(), &b"c".to_vec(), TagMergeMode::Replace);
    assert_eq!(tags.entries.len(), 1);
    assert_eq!(tags.get_value(&b"k".to_vec()), Some(b"c".to_vec()));
}

#[test]
fn missing_key_has_no_value() {
    let tags = TagList::new();
    assert_eq!(tags.get_value(&b"comment".to_vec()), None);
}

#[test]
fn same_value_twice_gives_identical_payloads() {
    let mut first = TagList::new();
    let mut second = TagList::new();
    second.merge_tag(&b"comment".to_vec(), &b"stale".to_vec(), TagMergeMode::Append);
    embed_comment(&mut first, &b"same tag".to_vec());
    embed_comment(&mut second, &b"same tag".to_vec());
    assert_eq!(
        first.get_value(&b"comment".to_vec()),
        second.get_value(&b"comment".to_vec()),
    );
    assert_eq!(first.get_value(&b"comment".to_vec()), Some(b"same tag".to_vec()));
}
