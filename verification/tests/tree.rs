use badpiggies_editor::tree::{click_selection, DropPosition};

fn sorted(mut v: Vec<usize>) -> Vec<usize> {
    v.sort();
    v.dedup();
    v
}

#[test]
fn plain_click_selects_only_the_clicked_object() {
    let (sel, anchor) = click_selection(&[0, 1, 2, 3], &vec![1, 2], Some(1), 3, false, false);
    assert_eq!(sorted(sel), vec![3]);
    assert_eq!(anchor, Some(3));
}

#[test]
fn command_click_toggles() {
    let (sel, anchor) = click_selection(&[0, 1, 2, 3], &vec![1, 2], None, 2, false, true);
    assert_eq!(sorted(sel), vec![1]);
    assert_eq!(anchor, Some(2));
    let (sel, _) = click_selection(&[0, 1, 2, 3], &vec![1, 2], None, 0, false, true);
    assert_eq!(sorted(sel), vec![0, 1, 2]);
}

#[test]
fn shift_click_selects_the_display_range() {
    // display order differs from index order
    let flat = [5, 2, 7, 1, 9];
    let (sel, anchor) = click_selection(&flat, &vec![4], Some(7), 9, true, false);
    assert_eq!(sorted(sel), vec![1, 7, 9]);
    assert_eq!(anchor, Some(7));
    let (sel, _) = click_selection(&flat, &vec![4], Some(1), 2, true, true);
    assert_eq!(sorted(sel), vec![1, 2, 4, 7]);
    // no anchor: the clicked object alone, anchored
    let (sel, anchor) = click_selection(&flat, &vec![4], None, 2, true, false);
    assert_eq!(sorted(sel), vec![2]);
    assert_eq!(anchor, Some(2));
    // an anchor that is no longer in the tree changes nothing
    let (sel, anchor) = click_selection(&flat, &vec![4], Some(42), 2, true, false);
    assert_eq!(sorted(sel), vec![4]);
    assert_eq!(anchor, Some(42));
}

#[test]
fn drop_positions_name_their_target() {
    let p = DropPosition::IntoParent(3);
    assert_eq!(p, DropPosition::IntoParent(3));
    assert_ne!(DropPosition::Before(1), DropPosition::After(1));
}

#[test]
fn a_range_click_lists_each_object_once() {
    let flat = [5, 1, 4, 2];
    // the range overlaps the kept selection
    let (sel, _) = click_selection(&flat, &vec![4, 7], Some(5), 4, true, true);
    let mut d = sel.clone();
    d.sort();
    d.dedup();
    assert_eq!(d.len(), sel.len());
    assert_eq!(sorted(sel), vec![1, 4, 5, 7]);
}
