use pos_global::category::tree::{build_category_forest, children_listed_under, sort_for_display, tree_roots};
use pos_global::category::Category;
use pos_global::location::tree::build_location_tree;
use pos_global::location::update::{check_bin_activation, check_bin_location, merge_bin_update, merge_location_update};
use pos_global::location::{Bin, Location, LocationError, UpdateBinInput, UpdateLocationInput};

fn loc(id: &str, parent: Option<&str>) -> Location {
    Location {
        id: id.to_string(),
        branch_id: "b1".to_string(),
        parent_id: parent.map(|p| p.to_string()),
        name: format!("Loc {id}"),
        code: id.to_uppercase(),
        location_type: None,
        is_active: true,
        created_at: "2024-01-01".to_string(),
        updated_at: "2024-01-01".to_string(),
    }
}

fn bin(id: &str, location: &str) -> Bin {
    Bin {
        id: id.to_string(),
        location_id: location.to_string(),
        name: format!("Bin {id}"),
        code: id.to_uppercase(),
        is_active: true,
        created_at: "2024-01-01".to_string(),
        updated_at: "2024-01-01".to_string(),
    }
}

#[test]
fn location_tree_groups_children_and_bins() {
    let locations = vec![
        loc("wh", None),
        loc("a1", Some("wh")),
        loc("shop", None),
        loc("a2", Some("wh")),
        loc("a1x", Some("a1")),
        loc("lost", Some("missing")),
    ];
    let bins = vec![bin("b1", "a1"), bin("b2", "shop"), bin("b3", "a1")];
    let forest = build_location_tree(&locations, &bins);
    assert_eq!(forest.len(), 2);
    assert_eq!(forest[0].location.id, "wh");
    assert_eq!(forest[1].location.id, "shop");
    assert_eq!(forest[1].bins.len(), 1);
    let wh = &forest[0];
    assert!(wh.bins.is_empty());
    assert_eq!(wh.children.len(), 2);
    assert_eq!(wh.children[0].location.id, "a1");
    assert_eq!(wh.children[1].location.id, "a2");
    let a1 = &wh.children[0];
    assert_eq!(a1.bins.iter().map(|b| b.id.as_str()).collect::<Vec<_>>(), vec!["b1", "b3"]);
    assert_eq!(a1.children.len(), 1);
    assert_eq!(a1.children[0].location.id, "a1x");
    assert!(a1.children[0].children.is_empty());
    // a location whose parent is not listed appears nowhere
    assert!(build_location_tree(&vec![], &bins).is_empty());
}

fn cat(id: &str, name: &str, parent: Option<&str>) -> Category {
    Category {
        id: id.to_string(),
        name: name.to_string(),
        parent_id: parent.map(|p| p.to_string()),
        description: None,
        is_active: true,
        created_at: "2024-01-01".to_string(),
        updated_at: "2024-01-01".to_string(),
    }
}

#[test]
fn category_roots_children_and_order() {
    let cats = vec![
        cat("1", "drinks", None),
        cat("2", "Tea", Some("1")),
        cat("3", "coffee", Some("1")),
        cat("4", "Bakery", None),
        cat("5", "orphan", Some("gone")),
        cat("6", "apple", Some("1")),
    ];
    let roots = tree_roots(&cats);
    assert_eq!(roots.iter().map(|c| c.id.as_str()).collect::<Vec<_>>(), vec!["1", "4", "5"]);
    let under = children_listed_under(&cats, "1");
    assert_eq!(under.iter().map(|c| c.id.as_str()).collect::<Vec<_>>(), vec!["2", "3", "6"]);
    let sorted = sort_for_display(&under);
    assert_eq!(sorted.iter().map(|c| c.name.as_str()).collect::<Vec<_>>(), vec!["apple", "coffee", "Tea"]);
    let sorted_roots = sort_for_display(&roots);
    assert_eq!(sorted_roots.iter().map(|c| c.name.as_str()).collect::<Vec<_>>(), vec!["Bakery", "drinks", "orphan"]);
    // equal keys keep their list order
    let ties = vec![cat("a", "Same", None), cat("b", "same", None), cat("c", "SAME", None)];
    let t = sort_for_display(&ties);
    assert_eq!(t.iter().map(|c| c.id.as_str()).collect::<Vec<_>>(), vec!["a", "b", "c"]);
    assert!(sort_for_display(&vec![]).is_empty());
}

#[test]
fn category_forest_orders_levels_and_keeps_stranded_cycles() {
    let cats = vec![
        cat("1", "drinks", None),
        cat("2", "Tea", Some("1")),
        cat("3", "coffee", Some("1")),
        cat("4", "Bakery", None),
        cat("7", "green", Some("2")),
        cat("8", "Black", Some("2")),
        // x and y name each other as parent: neither is reached from a root
        cat("x", "Loop A", Some("y")),
        cat("y", "loop B", Some("x")),
    ];
    let forest = build_category_forest(&cats);
    let tops: Vec<&str> = forest.iter().map(|n| n.category.id.as_str()).collect();
    assert_eq!(tops, vec!["4", "1", "x"]);
    let drinks = &forest[1];
    let kids: Vec<&str> = drinks.children.iter().map(|n| n.category.name.as_str()).collect();
    assert_eq!(kids, vec!["coffee", "Tea"]);
    let tea = &drinks.children[1];
    let leaves: Vec<&str> = tea.children.iter().map(|n| n.category.name.as_str()).collect();
    assert_eq!(leaves, vec!["Black", "green"]);
    // the cycle is shown once from x (the first listed under a parent not yet taken),
    // with y under it as a leaf
    let la = &forest[2];
    assert_eq!(la.children.len(), 1);
    assert_eq!(la.children[0].category.id, "y");
    assert!(la.children[0].children.is_empty());
    assert!(forest[0].children.is_empty());
    assert!(build_category_forest(&vec![]).is_empty());
}

#[test]
fn location_and_bin_partial_updates() {
    let existing = loc("a1", Some("wh"));
    let keep = UpdateLocationInput { id: "a1".into(), name: None, code: None, parent_id: None, location_type: None, is_active: None };
    let c = merge_location_update(&existing, &keep).unwrap();
    assert_eq!(c.name, "Loc a1");
    assert_eq!(c.code, "A1");
    assert_eq!(c.parent_id, Some("wh".to_string()));
    assert!(!c.check_parent && !c.check_deactivation && c.is_active);

    let change = UpdateLocationInput {
        id: "a1".into(),
        name: Some("  Aisle 1 ".into()),
        code: None,
        parent_id: Some(Some(" shop ".into())),
        location_type: Some(Some("  ".into())),
        is_active: Some(false),
    };
    let c = merge_location_update(&existing, &change).unwrap();
    assert_eq!(c.name, "Aisle 1");
    assert_eq!(c.parent_id, Some("shop".to_string()));
    assert!(c.check_parent);
    assert_eq!(c.location_type, None);
    assert!(!c.is_active && c.check_deactivation);

    let clear = UpdateLocationInput { parent_id: Some(Some("   ".into())), ..keep.clone() };
    let c = merge_location_update(&existing, &clear).unwrap();
    assert_eq!(c.parent_id, None);
    assert!(!c.check_parent);

    let blank = UpdateLocationInput { name: Some(" ".into()), code: Some("".into()), ..keep.clone() };
    assert_eq!(
        merge_location_update(&existing, &blank).unwrap_err(),
        LocationError::Validation("name cannot be empty or whitespace-only".into())
    );
    let blank_code = UpdateLocationInput { code: Some("".into()), ..keep };
    assert_eq!(
        merge_location_update(&existing, &blank_code).unwrap_err(),
        LocationError::Validation("code cannot be empty or whitespace-only".into())
    );

    let mut stored = bin("b1", "a1");
    stored.is_active = false;
    let c = merge_bin_update(&stored, &UpdateBinInput { id: "b1".into(), name: None, code: Some(" X9 ".into()), is_active: Some(true) }).unwrap();
    assert_eq!(c.code, "X9");
    assert!(c.is_active && c.check_location_active);
    let c = merge_bin_update(&stored, &UpdateBinInput { id: "b1".into(), name: None, code: None, is_active: None }).unwrap();
    assert!(!c.is_active && !c.check_location_active);

    assert!(check_bin_activation("b1", "a1", None).is_ok());
    assert!(check_bin_activation("b1", "a1", Some(true)).is_ok());
    assert_eq!(
        check_bin_activation("b1", "a1", Some(false)).unwrap_err(),
        LocationError::InactiveParent("Cannot activate bin 'b1': its parent location 'a1' is inactive".into())
    );
    assert!(check_bin_location("a1", Some(true)).is_ok());
    assert_eq!(
        check_bin_location("a1", Some(false)).unwrap_err(),
        LocationError::InactiveParent("Cannot create bin in inactive location 'a1'".into())
    );
    assert_eq!(check_bin_location("zz", None).unwrap_err(), LocationError::NotFound("Location 'zz' not found".into()));
}
