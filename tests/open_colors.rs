use open_colors::{AccountId, Color, ColorAdded, ColorsClear, Error, OpenColors};

fn alice() -> AccountId {
    AccountId::from_bytes([0x01; 32])
}

fn bob() -> AccountId {
    AccountId::from_bytes([0x02; 32])
}

fn initial_colors() -> Vec<Color> {
    vec![
        Color { r: 0, g: 0, b: 0 },
        Color {
            r: 255,
            g: 255,
            b: 255,
        },
    ]
}

fn create_contract() -> OpenColors {
    OpenColors::new(alice(), initial_colors())
}

#[test]
fn default_values_with_no_colors() {
    let sender = alice();
    let mut open_colors = OpenColors::default(sender);
    assert_eq!(open_colors.get_last_color(), None);
    assert_eq!(open_colors.get_colors_list(), Vec::new());
    assert_eq!(open_colors.colors_added_by(sender), None);
    assert_eq!(open_colors.owner(), sender);
}

#[test]
fn basic_contract() {
    let mut open_colors = create_contract();
    assert_eq!(
        open_colors.get_last_color(),
        Some(Color {
            r: 255,
            g: 255,
            b: 255
        })
    );
    assert_eq!(open_colors.get_colors_list(), initial_colors());
    assert_eq!(open_colors.colors_added_by(alice()).unwrap(), 2);
    assert_eq!(open_colors.owner(), alice());
}

#[test]
fn add_a_color() {
    let mut open_colors = create_contract();

    open_colors.add_color(bob(), Color { r: 255, g: 0, b: 0 });

    let final_colors = vec![
        Color { r: 0, g: 0, b: 0 },
        Color {
            r: 255,
            g: 255,
            b: 255,
        },
        Color { r: 255, g: 0, b: 0 },
    ];
    assert_eq!(open_colors.get_colors_list(), final_colors);
    assert_eq!(open_colors.colors_added_by(bob()).unwrap(), 1);
    assert_eq!(open_colors.get_last_color(), Some(Color { r: 255, g: 0, b: 0 }));
}

#[test]
fn new_with_empty_list_is_like_default() {
    let mut store = OpenColors::new(alice(), Vec::new());
    assert_eq!(store.get_last_color(), None);
    assert_eq!(store.get_colors_list(), Vec::new());
    assert_eq!(store.colors_added_by(alice()), None);
    assert_eq!(store.total_colors_added(), 0);
    assert_eq!(store.owner(), alice());
}

#[test]
fn new_counts_initial_colors() {
    let store = create_contract();
    assert_eq!(store.total_colors_added(), 2);
    assert_eq!(store.colors_added_by(bob()), None);
}

#[test]
fn add_color_returns_event() {
    let mut store = create_contract();
    let event = store.add_color(bob(), Color::new(255, 0, 0));
    assert_eq!(
        event,
        ColorAdded {
            account_id: bob(),
            color: Color { r: 255, g: 0, b: 0 }
        }
    );
    assert_eq!(store.total_colors_added(), 3);
    assert_eq!(store.colors_added_by(alice()), Some(2));
}

#[test]
fn add_color_credits_the_same_caller_again() {
    let mut store = create_contract();
    store.add_color(alice(), Color::new(1, 2, 3));
    store.add_color(bob(), Color::new(4, 5, 6));
    store.add_color(alice(), Color::new(7, 8, 9));
    assert_eq!(store.colors_added_by(alice()), Some(4));
    assert_eq!(store.colors_added_by(bob()), Some(1));
    assert_eq!(store.total_colors_added(), 5);
    assert_eq!(store.get_last_color(), Some(Color::new(7, 8, 9)));
}

#[test]
fn clear_by_non_owner_fails_and_changes_nothing() {
    let mut store = create_contract();
    store.add_color(bob(), Color::new(255, 0, 0));
    let before = store.get_colors_list();
    assert_eq!(store.clear_colors(bob()), Err(Error::NotOwner));
    assert_eq!(store.get_colors_list(), before);
    assert_eq!(store.total_colors_added(), 3);
    assert_eq!(store.get_last_color(), Some(Color::new(255, 0, 0)));
    assert_eq!(store.colors_added_by(bob()), Some(1));
}

#[test]
fn clear_by_owner_empties_and_keeps_contributions() {
    let mut store = create_contract();
    store.add_color(bob(), Color::new(255, 0, 0));
    assert_eq!(
        store.clear_colors(alice()),
        Ok(ColorsClear {
            account_id: alice()
        })
    );
    assert_eq!(store.get_colors_list(), Vec::new());
    assert_eq!(store.total_colors_added(), 0);
    assert_eq!(store.colors_added_by(alice()), Some(2));
    assert_eq!(store.colors_added_by(bob()), Some(1));
    assert_eq!(store.owner(), alice());
}

#[test]
fn clear_keeps_last_color() {
    let mut store = create_contract();
    store.clear_colors(alice()).unwrap();
    assert_eq!(store.get_last_color(), Some(Color::new(255, 255, 255)));
}

#[test]
fn add_after_clear_starts_a_new_list() {
    let mut store = create_contract();
    store.clear_colors(alice()).unwrap();
    store.add_color(bob(), Color::new(9, 9, 9));
    assert_eq!(store.get_colors_list(), vec![Color::new(9, 9, 9)]);
    assert_eq!(store.total_colors_added(), 1);
    assert_eq!(store.colors_added_by(bob()), Some(1));
    assert_eq!(store.get_last_color(), Some(Color::new(9, 9, 9)));
}

#[test]
fn appended_colors_come_back_in_order() {
    let mut store = OpenColors::default(alice());
    let added = vec![
        Color::new(10, 20, 30),
        Color::new(0, 0, 0),
        Color::new(10, 20, 30),
        Color::new(255, 255, 255),
    ];
    for (i, c) in added.iter().enumerate() {
        let who = if i % 2 == 0 { alice() } else { bob() };
        store.add_color(who, *c);
    }
    assert_eq!(store.get_colors_list(), added);
    assert_eq!(store.total_colors_added(), 4);
}

#[test]
fn owner_survives_operations() {
    let mut store = OpenColors::default(bob());
    store.add_color(alice(), Color::new(1, 1, 1));
    assert_eq!(store.clear_colors(alice()), Err(Error::NotOwner));
    store.clear_colors(bob()).unwrap();
    assert_eq!(store.owner(), bob());
}

#[test]
fn identities_differing_in_last_byte_are_distinct() {
    let mut last = [0x01; 32];
    last[31] = 0x02;
    let other = AccountId::from_bytes(last);
    assert!(!alice().same_as(&other));
    assert!(alice().same_as(&alice()));
    let mut store = OpenColors::default(alice());
    assert_eq!(store.clear_colors(other), Err(Error::NotOwner));
}
