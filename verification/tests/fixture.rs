//! Fixture ids and fixture paths.

use demex_core::fixture::{
    FixtureError, FixtureId, FixturePath, FixturePathMatchLevel, Relation, RelationKind,
};
use demex_core::attribute::FixtureChannel3Attribute;
use demex_core::text::IntErrorKind;
use std::cmp::Ordering;

fn id(n: u32) -> FixtureId {
    FixtureId::new(n).unwrap()
}

fn path(ids: &[u32]) -> FixturePath {
    let ids: Vec<FixtureId> = ids.iter().map(|n| id(*n)).collect();
    FixturePath::from_slice(&ids)
}

#[test]
fn fixture_id_zero_is_refused() {
    assert!(matches!(FixtureId::new(0), Err(FixtureError::FixtureIdIsZero)));
    assert_eq!(FixtureId::new(7).unwrap().as_u32(), 7);
}

#[test]
fn fixture_id_text() {
    assert_eq!(id(4711).to_string(), "4711");
    assert_eq!(FixtureId::from_str("42").unwrap().as_u32(), 42);
    assert!(matches!(FixtureId::from_str("0"), Err(FixtureError::FixtureIdIsZero)));
    assert!(matches!(
        FixtureId::from_str(""),
        Err(FixtureError::FixtureIdParseError(IntErrorKind::Empty))
    ));
    assert!(matches!(
        FixtureId::from_str("1a"),
        Err(FixtureError::FixtureIdParseError(IntErrorKind::InvalidDigit))
    ));
    assert!(matches!(
        FixtureId::from_str("4294967296"),
        Err(FixtureError::FixtureIdParseError(IntErrorKind::PosOverflow))
    ));
    assert_eq!(FixtureId::from_str("+12").unwrap().as_u32(), 12);
}

#[test]
fn fixture_path_building() {
    let mut p = FixturePath::new(id(3));
    assert_eq!(p.len(), 1);
    assert!(p.is_root_fixture());
    assert_eq!(p.sub_len(), 0);
    p.push(id(5));
    p.push(id(9));
    assert_eq!(p.len(), 3);
    assert!(!p.is_root_fixture());
    assert_eq!(p.sub_len(), 2);
    assert_eq!(p.root().as_u32(), 3);
    assert_eq!(p.last().as_u32(), 9);
    let ids: Vec<u32> = p.as_slice().iter().map(|i| i.as_u32()).collect();
    assert_eq!(ids, vec![3, 5, 9]);
    p.replace_last(id(2));
    assert_eq!(p.to_string(), "3.5.2");
}

#[test]
fn fixture_path_pair_and_from_id() {
    let p = FixturePath::pair(id(1), id(2));
    assert_eq!(p.to_string(), "1.2");
    let q: FixturePath = id(8).into();
    assert_eq!(q.to_string(), "8");
}

#[test]
fn fixture_path_extending() {
    let p = path(&[1, 2]);
    let q = p.extended_with(id(3));
    assert_eq!(q.to_string(), "1.2.3");
    let mut r = path(&[4]);
    r.extend(&[id(5), id(6)]);
    assert_eq!(r.to_string(), "4.5.6");
    let s = path(&[7, 8, 9]).with_parent(path(&[1, 2]));
    assert_eq!(s.to_string(), "1.2.9");
}

#[test]
fn fixture_path_replace_parent() {
    let p = path(&[1, 2, 3, 4]);
    let moved = p.replace_parent(&path(&[1, 2]), path(&[9]));
    assert_eq!(moved.to_string(), "9.3.4");
    // moving it back restores the path
    let back = moved.replace_parent(&path(&[9]), path(&[1, 2]));
    assert!(back.same(&p));
    assert!(back == p);
}

#[test]
fn fixture_path_starts_with() {
    let p = path(&[1, 2, 3]);
    assert!(p.starts_with(&path(&[1])));
    assert!(p.starts_with(&path(&[1, 2])));
    assert!(p.starts_with(&p));
    assert!(!p.starts_with(&path(&[1, 3])));
    assert!(!path(&[1]).starts_with(&p));
}

#[test]
fn fixture_path_matches() {
    let p = path(&[1, 2, 3]);
    let q = path(&[1, 2]);
    let r = path(&[1, 4]);
    assert!(p.matches(&p, FixturePathMatchLevel::Exact));
    assert!(!p.matches(&q, FixturePathMatchLevel::Exact));
    assert!(p.matches(&r, FixturePathMatchLevel::Root));
    assert!(!p.matches(&path(&[2]), FixturePathMatchLevel::Root));
    assert!(p.matches(&q, FixturePathMatchLevel::NotSibling));
    assert!(q.matches(&p, FixturePathMatchLevel::NotSibling));
    assert!(!p.matches(&r, FixturePathMatchLevel::NotSibling));
}

#[test]
fn fixture_path_text_round_trip() {
    for text in ["1", "1.2", "12.345.6", "1.2.3.4.5.6.7.8"] {
        let p = FixturePath::from_str(text).unwrap();
        assert_eq!(p.to_string(), text);
    }
}

#[test]
fn fixture_path_text_errors() {
    assert!(matches!(
        FixturePath::from_str("1.2.3.4.5.6.7.8.9"),
        Err(FixtureError::FixturePathHasTooManyParts)
    ));
    assert!(matches!(FixturePath::from_str("1.0"), Err(FixtureError::FixtureIdIsZero)));
    assert!(matches!(
        FixturePath::from_str("1..2"),
        Err(FixtureError::FixtureIdParseError(IntErrorKind::Empty))
    ));
    assert!(matches!(
        FixturePath::from_str("x"),
        Err(FixtureError::FixtureIdParseError(IntErrorKind::InvalidDigit))
    ));
}

#[test]
fn fixture_path_order() {
    assert_eq!(path(&[1, 2]).partial_cmp(&path(&[1, 3])), Some(Ordering::Less));
    assert_eq!(path(&[2]).partial_cmp(&path(&[1, 9])), Some(Ordering::Greater));
    assert_eq!(path(&[1]).partial_cmp(&path(&[1, 1])), Some(Ordering::Less));
    assert_eq!(path(&[1, 1]).partial_cmp(&path(&[1])), Some(Ordering::Greater));
    assert_eq!(path(&[4, 5]).partial_cmp(&path(&[4, 5])), Some(Ordering::Equal));
    assert!(path(&[1, 2]) < path(&[1, 2, 1]));
}

#[test]
fn relation_accessors() {
    let r = Relation::new(RelationKind::Override, path(&[1, 2]), FixtureChannel3Attribute::Pan);
    assert_eq!(*r.kind(), RelationKind::Override);
    assert_eq!(r.fixture_path().to_string(), "1.2");
    assert_eq!(r.attribute(), FixtureChannel3Attribute::Pan);
}

#[test]
fn starts_with_is_transitive() {
    let a = path(&[1, 2, 3, 4]);
    let b = path(&[1, 2, 3]);
    let c = path(&[1, 2]);
    assert!(a.starts_with(&b) && b.starts_with(&c) && a.starts_with(&c));
}

#[test]
fn order_is_antisymmetric() {
    let a = path(&[3, 1]);
    let b = path(&[3, 2]);
    assert_eq!(a.partial_cmp(&b), Some(Ordering::Less));
    assert_eq!(b.partial_cmp(&a), Some(Ordering::Greater));
}

#[test]
fn path_ids_in_a_vector() {
    let p = FixturePath::from_str("3.1.4").unwrap();
    let ids: Vec<u32> = p.iter().iter().map(|i| i.as_u32()).collect();
    assert_eq!(ids, vec![3, 1, 4]);
    assert_eq!(FixturePath::new(id(7)).iter().len(), 1);
}

#[test]
fn built_paths_are_not_empty_and_compare_by_ids() {
    let mut p = FixturePath::new(id(2));
    p.push(id(5));
    let q = FixturePath::from_slice(&[id(2), id(5)]);
    assert_eq!(p, q);
    assert!(p.same(&q));
    assert!(p.len() >= 1 && p.len() <= FixturePath::MAX_LEN);
    assert_eq!(p.sub_len(), p.len() - 1);
    assert_eq!(p.as_slice().len(), p.len());
    let mut r = p;
    r.replace_last(id(6));
    assert_ne!(p, r);
    assert_eq!(FixturePath::from_str("9").unwrap().len(), 1);
}
