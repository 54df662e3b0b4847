use cosmic_monitor::content::refresh_content;

#[test]
fn content_becomes_the_kept_items() {
    let mut content = vec![1u32, 9, 3, 7, 7, 7];
    let items = vec![1u32, 2, 3, 4, 5];
    let keep = vec![true, false, true, true, false];
    refresh_content(&mut content, &items, &keep);
    assert_eq!(content, vec![1, 3, 4]);
}

#[test]
fn content_grows_when_more_items_are_kept() {
    let mut content: Vec<String> = vec!["x".to_string()];
    let items: Vec<String> = vec!["a".into(), "b".into(), "c".into()];
    refresh_content(&mut content, &items, &vec![true, true, true]);
    assert_eq!(content, items);
    refresh_content(&mut content, &items, &vec![false, false, false]);
    assert!(content.is_empty());
}

#[derive(Clone, Debug)]
struct Row {
    pid: u32,
    generation: u32,
}

impl PartialEq for Row {
    fn eq(&self, other: &Self) -> bool {
        self.pid == other.pid
    }
}

#[test]
fn content_keeps_rows_that_compare_equal() {
    let mut content = vec![Row { pid: 1, generation: 0 }, Row { pid: 2, generation: 0 }];
    let items = vec![Row { pid: 1, generation: 1 }, Row { pid: 3, generation: 1 }];
    refresh_content(&mut content, &items, &vec![true, true]);
    assert_eq!(content[0].generation, 0);
    assert_eq!(content[1].pid, 3);
    assert_eq!(content[1].generation, 1);
}

#[test]
fn refreshing_twice_is_refreshing_once() {
    let items = vec![4u32, 8, 15, 16, 23, 42];
    let keep = vec![true, false, true, false, true, true];
    let mut once = vec![9u32, 9];
    refresh_content(&mut once, &items, &keep);
    let mut twice = once.clone();
    refresh_content(&mut twice, &items, &keep);
    assert_eq!(once, vec![4, 15, 23, 42]);
    assert_eq!(twice, once);
}
