use turbopack_ecmascript_plugins::{
    bridge_comments, copy_comment, should_enable_comments_proxy, Comment, CommentKind, CommentsMap,
};

fn comment(text: &str, lo: u32) -> Comment {
    Comment { kind: CommentKind::Line, span_lo: lo, span_hi: lo + text.len() as u32, text: text.to_string() }
}

#[test]
fn leading_only_is_not_bridged() {
    let mut leading = CommentsMap::new();
    leading.insert(3, vec![comment("// a", 0)]);
    let trailing = CommentsMap::new();
    assert!(!should_enable_comments_proxy(&leading, &trailing));
    assert!(bridge_comments(&leading, &trailing).is_none());
}

#[test]
fn trailing_only_is_not_bridged() {
    let leading = CommentsMap::new();
    let mut trailing = CommentsMap::new();
    trailing.insert(9, vec![comment("// z", 5)]);
    assert!(bridge_comments(&leading, &trailing).is_none());
}

#[test]
fn both_sides_are_bridged_unchanged() {
    let mut leading = CommentsMap::new();
    leading.insert(3, vec![comment("// a", 0), comment("// b", 1)]);
    leading.insert(10, vec![comment("/* c */", 8)]);
    let mut trailing = CommentsMap::new();
    trailing.insert(7, vec![comment("// t", 6)]);
    assert!(should_enable_comments_proxy(&leading, &trailing));
    let bridged = bridge_comments(&leading, &trailing).expect("bridged");
    assert_eq!(bridged.leading.len(), 2);
    assert_eq!(bridged.trailing.len(), 1);
    assert_eq!(format!("{:?}", bridged.leading), format!("{:?}", leading));
    assert_eq!(format!("{:?}", bridged.trailing), format!("{:?}", trailing));
}

#[test]
fn insert_replaces_same_position() {
    let mut map = CommentsMap::new();
    map.insert(4, vec![comment("// old", 0)]);
    map.insert(4, vec![comment("// new", 0)]);
    assert_eq!(map.len(), 1);
    assert!(format!("{:?}", map).contains("// new"));
    assert!(!format!("{:?}", map).contains("// old"));
}

#[test]
fn copied_comment_keeps_fields() {
    let c = Comment { kind: CommentKind::Block, span_lo: 2, span_hi: 9, text: "/* x */".to_string() };
    let d = copy_comment(&c);
    assert_eq!(d.kind, CommentKind::Block);
    assert_eq!((d.span_lo, d.span_hi), (2, 9));
    assert_eq!(d.text, "/* x */");
}
