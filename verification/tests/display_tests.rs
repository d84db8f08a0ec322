use dream_spinner::display::{
    find_primary, resolve_topology, DisplaySurface, TopologyError, ViewportIdentity,
};

fn display(id: u32, name: &str, x: i32, is_primary: bool) -> DisplaySurface {
    DisplaySurface {
        id,
        name: name.to_string(),
        x,
        y: 0,
        scale_bits: 1.0f32.to_bits(),
        is_primary,
    }
}

#[test]
fn no_display_is_an_error() {
    assert_eq!(resolve_topology(Vec::new(), true).err(), Some(TopologyError::NoDisplays));
    assert_eq!(resolve_topology(Vec::new(), false).err(), Some(TopologyError::NoDisplays));
    assert_eq!(TopologyError::NoDisplays.message(), "Can't find any displays");
}

#[test]
fn no_primary_display_is_an_error() {
    let displays = vec![display(1, "a", 0, false), display(2, "b", 100, false)];
    assert_eq!(resolve_topology(displays, true).err(), Some(TopologyError::NoPrimary));
    assert_eq!(TopologyError::NoPrimary.message(), "Can't find the primary display");
}

#[test]
fn the_primary_display_is_found_exactly_where_the_displays_can_be_used() {
    let rows = vec![
        Vec::new(),
        vec![display(1, "a", 0, false)],
        vec![display(1, "a", 0, true)],
        vec![display(1, "b", 0, false), display(2, "a", 0, true), display(3, "c", 0, true)],
        vec![display(1, "b", 0, false), display(2, "a", 0, false)],
    ];
    let want = [
        Err(TopologyError::NoDisplays),
        Err(TopologyError::NoPrimary),
        Ok(0),
        Ok(1),
        Err(TopologyError::NoPrimary),
    ];
    for (row, want) in rows.into_iter().zip(want) {
        assert_eq!(find_primary(&row), want);
        for flag in [false, true] {
            let copy = row
                .iter()
                .map(|d| display(d.id, d.name.as_str(), d.x, d.is_primary))
                .collect();
            match resolve_topology(copy, flag) {
                Ok(topology) => assert_eq!(Ok(topology.primary().id as usize - 1), want),
                Err(e) => assert_eq!(Err(e), want),
            }
        }
    }
}

#[test]
fn one_display_has_no_secondary_whatever_the_flag() {
    for flag in [false, true] {
        let topology = resolve_topology(vec![display(7, "only", 5, true)], flag).unwrap();
        assert_eq!(topology.primary().id, 7);
        assert_eq!(topology.primary().x, 5);
        assert!(topology.primary().is_primary);
        assert_eq!(topology.secondary_len(), 0);
        assert_eq!(topology.viewport_identities(), Vec::new());
    }
}

#[test]
fn without_multiscreen_the_other_displays_are_left_alone() {
    let displays = vec![display(1, "b", 0, false), display(2, "a", 100, true), display(3, "c", 200, false)];
    let topology = resolve_topology(displays, false).unwrap();
    assert_eq!(topology.primary().id, 2);
    assert_eq!(topology.secondary_len(), 0);
}

#[test]
fn secondary_displays_are_sorted_by_name() {
    let displays = vec![
        display(1, "delta", 0, false),
        display(2, "alpha", 100, false),
        display(3, "main", 200, true),
        display(4, "charlie", 300, false),
        display(5, "bravo", 400, false),
    ];
    let topology = resolve_topology(displays, true).unwrap();
    assert_eq!(topology.primary().id, 3);
    assert_eq!(topology.secondary_len(), 4);
    let names: Vec<&str> = (0..4).map(|i| topology.secondary(i).name.as_str()).collect();
    assert_eq!(names, vec!["alpha", "bravo", "charlie", "delta"]);
    let ids: Vec<u32> = (0..4).map(|i| topology.secondary(i).id).collect();
    assert_eq!(ids, vec![2, 5, 4, 1]);
    assert_eq!(topology.secondary(0).x, 100);
    assert_eq!(topology.secondary(0).scale_bits, 1.0f32.to_bits());
}

#[test]
fn the_last_display_takes_the_place_of_the_primary_one() {
    // All names are the same, so the order is the one after the primary
    // display has left: the last display stands where it stood.
    let displays = vec![
        display(1, "same", 0, false),
        display(2, "same", 0, true),
        display(3, "same", 0, false),
        display(4, "same", 0, false),
    ];
    let topology = resolve_topology(displays, true).unwrap();
    assert_eq!(topology.primary().id, 2);
    let ids: Vec<u32> = (0..3).map(|i| topology.secondary(i).id).collect();
    assert_eq!(ids, vec![1, 4, 3]);
}

#[test]
fn the_first_display_marked_primary_is_the_primary_one() {
    let displays = vec![
        display(1, "c", 0, false),
        display(2, "b", 0, true),
        display(3, "a", 0, true),
    ];
    let topology = resolve_topology(displays, true).unwrap();
    assert_eq!(topology.primary().id, 2);
    assert_eq!(topology.secondary_len(), 2);
    assert_eq!(topology.secondary(0).id, 3);
    assert_eq!(topology.secondary(1).id, 1);
    // Exactly one display is primary.
    assert!(topology.primary().is_primary);
    assert!(!topology.secondary(0).is_primary);
    assert!(!topology.secondary(1).is_primary);
}

#[test]
fn viewport_identities_differ_even_where_the_native_ids_collide() {
    let displays = vec![
        display(9, "p", 0, true),
        display(0, "a", 0, false),
        display(0, "b", 0, false),
        display(6, "c", 0, false),
        display(6, "d", 0, false),
    ];
    let n = displays.len();
    let topology = resolve_topology(displays, true).unwrap();
    let identities = topology.viewport_identities();
    assert_eq!(identities.len(), n - 1);
    assert_eq!(
        identities,
        vec![
            ViewportIdentity { native_id: 0, ordinal: 0 },
            ViewportIdentity { native_id: 0, ordinal: 1 },
            ViewportIdentity { native_id: 6, ordinal: 2 },
            ViewportIdentity { native_id: 6, ordinal: 3 },
        ]
    );
    for i in 0..identities.len() {
        assert_eq!(topology.viewport_identity(i), identities[i]);
        for j in 0..i {
            assert_ne!(identities[i], identities[j]);
        }
    }
}

#[test]
fn sorting_agrees_with_a_stable_sort_by_name() {
    let names = ["m", "b", "zz", "b", "a", "m", "", "é", "B", "b"];
    let mut v: u32 = 3;
    for round in 0..50 {
        let mut displays = Vec::new();
        let mut count = 0;
        for (i, _) in names.iter().enumerate() {
            v = v.wrapping_mul(1_664_525).wrapping_add(1_013_904_223);
            let name = names[(v >> 8) as usize % names.len()];
            displays.push(display(i as u32, name, 0, i == round % names.len()));
            count += 1;
        }
        let p = round % names.len();
        let mut want: Vec<(u32, String)> =
            displays.iter().map(|d| (d.id, d.name.clone())).collect();
        want.swap_remove(p);
        want.sort_by(|a, b| a.1.cmp(&b.1));
        let topology = resolve_topology(displays, true).unwrap();
        assert_eq!(topology.primary().id, p as u32);
        assert_eq!(topology.secondary_len(), count - 1);
        let got: Vec<(u32, String)> = (0..topology.secondary_len())
            .map(|i| (topology.secondary(i).id, topology.secondary(i).name.clone()))
            .collect();
        assert_eq!(got, want);
    }
}
