use credman::{CredManRK, CredManRP, CredentialView, Error, RelyingParty};

fn party(id: &str, name: Option<&str>) -> RelyingParty {
    RelyingParty { id: id.as_bytes().to_vec(), name: name.map(|n| n.as_bytes().to_vec()) }
}

fn cred(id: u8, user: &str) -> CredentialView {
    CredentialView::new(
        vec![id; 4],
        user.as_bytes().to_vec(),
        Some(user.to_string()),
        None,
        vec![0xa5, id],
        u32::from(id) * 10,
    )
}

fn three_parties() -> CredManRP {
    CredManRP::new(vec![
        party("example.com", Some("Example")),
        party("test.org", None),
        party("empty.net", Some("")),
    ])
}

#[test]
fn catalog_counts_its_entries() {
    assert_eq!(three_parties().count(), 3);
    assert_eq!(CredManRP::new(Vec::new()).count(), 0);
}

#[test]
fn catalog_yields_entries_in_order_then_nothing() {
    let catalog = three_parties();
    let mut it = catalog.iter();
    assert_eq!(it.len(), 3);
    assert_eq!(it.next(), Some(&party("example.com", Some("Example"))));
    assert_eq!(it.len(), 2);
    assert_eq!(it.next(), Some(&party("test.org", None)));
    assert_eq!(it.next(), Some(&party("empty.net", Some(""))));
    assert_eq!(it.len(), 0);
    assert_eq!(it.next(), None);
    assert_eq!(it.next(), None);
    assert_eq!(it.len(), 0);
}

#[test]
fn catalog_can_be_walked_twice() {
    let catalog = three_parties();
    let first: Vec<RelyingParty> = catalog.iter().collect().into_iter().cloned().collect();
    let second: Vec<RelyingParty> = catalog.iter().collect().into_iter().cloned().collect();
    assert_eq!(first, second);
    assert_eq!(
        first,
        vec![
            party("example.com", Some("Example")),
            party("test.org", None),
            party("empty.net", Some("")),
        ]
    );
    assert_eq!(catalog.count(), 3);
}

#[test]
fn a_second_iterator_starts_at_the_first_entry() {
    let catalog = three_parties();
    let mut first = catalog.iter();
    first.next();
    first.next();
    let mut second = catalog.iter();
    assert_eq!(second.next().unwrap().id, b"example.com".to_vec());
    assert_eq!(first.next().unwrap().id, b"empty.net".to_vec());
}

#[test]
fn collect_yields_only_what_is_left() {
    let catalog = three_parties();
    let mut it = catalog.iter();
    it.next();
    let rest = it.collect();
    assert_eq!(rest.len(), 2);
    assert_eq!(rest[0].id, b"test.org".to_vec());
    assert_eq!(rest[1].id, b"empty.net".to_vec());
}

#[test]
fn absent_name_is_not_an_empty_name() {
    let catalog = three_parties();
    let all = catalog.iter().collect();
    assert_eq!(all[1].name, None);
    assert_eq!(all[2].name, Some(Vec::new()));
    assert_ne!(all[1].name, all[2].name);
}

#[test]
fn empty_catalog_yields_nothing() {
    let catalog = CredManRP::new(Vec::new());
    let mut it = catalog.iter();
    assert_eq!(it.len(), 0);
    assert!(it.next().is_none());
    assert!(catalog.iter().collect().is_empty());
}

#[test]
fn set_get_succeeds_below_count_and_fails_from_count_on() {
    let set = CredManRK::new(vec![cred(1, "alice"), cred(2, "bob"), cred(3, "carol")]);
    let n = set.count();
    assert_eq!(n, 3);
    for i in 0..n {
        assert!(set.get(i).is_ok());
    }
    assert_eq!(set.get(0).unwrap().user_id(), b"alice");
    assert_eq!(set.get(1).unwrap().user_id(), b"bob");
    assert_eq!(set.get(2).unwrap().user_id(), b"carol");
    assert_eq!(set.get(3), Err(Error::IndexOutOfRange));
    assert_eq!(set.get(4), Err(Error::IndexOutOfRange));
    assert_eq!(set.get(usize::MAX), Err(Error::IndexOutOfRange));
}

#[test]
fn empty_set_has_no_index() {
    let set = CredManRK::new(Vec::new());
    assert_eq!(set.count(), 0);
    assert_eq!(set.get(0), Err(Error::IndexOutOfRange));
    assert!(set.iter().next().is_none());
}

#[test]
fn set_can_be_walked_twice() {
    let set = CredManRK::new(vec![cred(1, "alice"), cred(2, "bob")]);
    let first: Vec<CredentialView> = set.iter().collect().into_iter().cloned().collect();
    let second: Vec<CredentialView> = set.iter().collect().into_iter().cloned().collect();
    assert_eq!(first, second);
    assert_eq!(first, vec![cred(1, "alice"), cred(2, "bob")]);
}

#[test]
fn set_iterator_agrees_with_get() {
    let set = CredManRK::new(vec![cred(1, "alice"), cred(2, "bob")]);
    let mut it = set.iter();
    assert_eq!(it.len(), 2);
    assert_eq!(it.next(), Some(set.get(0).unwrap()));
    assert_eq!(it.len(), 1);
    assert_eq!(it.next(), Some(set.get(1).unwrap()));
    assert_eq!(it.next(), None);
    assert_eq!(it.next(), None);
    assert_eq!(it.len(), 0);
}

#[test]
fn credential_view_gives_back_what_it_was_made_of() {
    let c = CredentialView::new(
        vec![1, 2, 3],
        vec![9, 8],
        Some("alice".to_string()),
        Some("Alice A.".to_string()),
        vec![4, 5, 6, 7],
        42,
    );
    assert_eq!(c.id(), &[1, 2, 3]);
    assert_eq!(c.user_id(), &[9, 8]);
    assert_eq!(c.user_name(), Some("alice"));
    assert_eq!(c.display_name(), Some("Alice A."));
    assert_eq!(c.public_key(), &[4, 5, 6, 7]);
    assert_eq!(c.sign_count(), 42);
}

#[test]
fn credential_view_keeps_absent_names_absent() {
    let c = CredentialView::new(vec![1], vec![2], None, Some(String::new()), Vec::new(), 0);
    assert_eq!(c.user_name(), None);
    assert_eq!(c.display_name(), Some(""));
    assert!(c.public_key().is_empty());
    assert_eq!(c.sign_count(), 0);
}

#[test]
fn set_can_be_indexed_below_its_count() {
    let set = CredManRK::new(vec![cred(1, "alice"), cred(2, "bob")]);
    assert_eq!(set[0].user_name(), Some("alice"));
    assert_eq!(set[1].user_id(), b"bob");
    assert_eq!(set[1].sign_count(), 20);
    assert_eq!(&set[0], set.get(0).unwrap());
}
