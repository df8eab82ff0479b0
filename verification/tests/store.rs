use xfighter_contracts::ranking::sort_by_rank;
use xfighter_contracts::store::{Key, Table};
use xfighter_contracts::tournament_shared::LeaderboardEntry;

fn row(name: &str, score: u64) -> LeaderboardEntry {
    LeaderboardEntry { username: name.to_string(), score }
}

#[test]
fn table_stores_replaces_and_removes() {
    let mut table: Table<String, u64> = Table::new();
    assert_eq!(table.len(), 0);
    assert_eq!(table.get(&"a".to_string()), None);
    table.insert("a".to_string(), 1);
    table.insert("b".to_string(), 2);
    table.insert("a".to_string(), 3);
    assert_eq!(table.len(), 2);
    assert_eq!(table.get(&"a".to_string()), Some(&3));
    assert_eq!(table.get(&"b".to_string()), Some(&2));
    assert!(table.contains_key(&"b".to_string()));
    table.remove(&"a".to_string());
    table.remove(&"zzz".to_string());
    assert_eq!(table.len(), 1);
    assert!(!table.contains_key(&"a".to_string()));
    assert_eq!(table.get(&"b".to_string()), Some(&2));
    table.clear();
    assert_eq!(table.len(), 0);
    assert!(!table.contains_key(&"b".to_string()));
}

#[test]
fn table_lists_keys_in_the_order_they_came() {
    let mut table: Table<u64, String> = Table::new();
    for n in [5u64, 1, 9, 1, 3] {
        table.insert(n, format!("v{n}"));
    }
    let keys: Vec<u64> = (0..table.len()).map(|i| *table.key_at(i)).collect();
    let values: Vec<&str> = (0..table.len()).map(|i| table.value_at(i).as_str()).collect();
    assert_eq!(keys, vec![5, 1, 9, 3]);
    assert_eq!(values, vec!["v5", "v1", "v9", "v3"]);
    table.remove(&1);
    let keys: Vec<u64> = (0..table.len()).map(|i| *table.key_at(i)).collect();
    assert_eq!(keys, vec![5, 9, 3]);
}

#[test]
fn pair_keys_are_told_apart_by_both_parts() {
    let mut table: Table<(u64, String), u64> = Table::new();
    table.insert((1, "alice".to_string()), 10);
    table.insert((2, "alice".to_string()), 20);
    table.insert((1, "bob".to_string()), 30);
    assert_eq!(table.len(), 3);
    assert_eq!(table.get(&(2, "alice".to_string())), Some(&20));
    assert_eq!(table.get(&(2, "bob".to_string())), None);
    assert!((1u64, "x".to_string()).same_key(&(1, "x".to_string())));
    assert!(!(1u64, "x".to_string()).same_key(&(1, "y".to_string())));
    assert!(!(1u64, "x".to_string()).same_key(&(2, "x".to_string())));
    assert_eq!((7u64, "k".to_string()).copy_key(), (7, "k".to_string()));
    assert!("a".to_string().same_key(&"a".to_string()));
    assert!(!7u64.same_key(&8));
    assert_eq!(7u64.copy_key(), 7);
}

#[test]
fn ranking_is_highest_first_and_stable() {
    let rows = vec![row("a", 2), row("b", 5), row("c", 2), row("d", 9), row("e", 5), row("f", 0)];
    let sorted = sort_by_rank(rows);
    assert_eq!(
        sorted,
        vec![row("d", 9), row("b", 5), row("e", 5), row("a", 2), row("c", 2), row("f", 0)]
    );
    assert_eq!(sort_by_rank(Vec::<LeaderboardEntry>::new()), vec![]);
    assert_eq!(sort_by_rank(vec![row("x", 1)]), vec![row("x", 1)]);
    let ties = vec![row("p", 3), row("q", 3), row("r", 3)];
    assert_eq!(sort_by_rank(ties), vec![row("p", 3), row("q", 3), row("r", 3)]);
}
