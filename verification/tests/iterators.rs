use crust::iterators::flatten;
use crust::iterators::Flatten;
use crust::iterators::Step;

fn count<T>(mut all: Flatten<T>) -> usize {
    let mut seen = 0;
    while all.next().is_some() {
        seen += 1;
    }
    seen
}

fn reversed<T>(mut all: Flatten<T>) -> Vec<T> {
    let mut seen = Vec::new();
    while let Some(item) = all.next_back() {
        seen.push(item);
    }
    seen
}

#[test]
fn empty() {
    assert_eq!(count(flatten(Vec::<Vec<()>>::new())), 0);
}

#[test]
fn empty_wide() {
    assert_eq!(count(flatten(vec![Vec::<()>::new(), vec![], vec![]])), 0);
}

#[test]
fn one() {
    assert_eq!(count(flatten(vec![vec!["a"]])), 1);
}

#[test]
fn two() {
    assert_eq!(count(flatten(vec![vec!["a", "b"]])), 2);
}

#[test]
fn two_wide() {
    assert_eq!(count(flatten(vec![vec!["a"], vec!["b"]])), 2);
}

#[test]
fn reverse() {
    assert_eq!(reversed(flatten(vec![vec!["a", "b"]])), vec!["b", "a"]);
}

#[test]
fn reverse_wide() {
    assert_eq!(reversed(flatten(vec![vec!["a"], vec!["b"]])), vec!["b", "a"]);
}

#[test]
fn both_ends() {
    let mut iter = flatten(vec![vec!["a1", "a2", "a3"], vec!["b1", "b2", "b3"]]);
    assert_eq!(iter.next_back(), Some("b3"));
    assert_eq!(iter.next(), Some("a1"));
    assert_eq!(iter.next(), Some("a2"));
    assert_eq!(iter.next(), Some("a3"));
    assert_eq!(iter.next_back(), Some("b2"));
    assert_eq!(iter.next_back(), Some("b1"));
    assert_eq!(iter.next(), None);
    assert_eq!(iter.next_back(), None);
}

#[test]
fn ranges_of_growing_length() {
    let lists: Vec<Vec<i32>> = (0..4).map(|i| (0..i).collect()).collect();
    let mut iter = flatten(lists);
    assert_eq!(iter.next(), Some(0));
    assert_eq!(iter.next(), Some(0));
    assert_eq!(iter.next(), Some(1));
}

#[test]
fn back_reaches_what_the_front_opened() {
    let mut iter = flatten(vec![vec!["a1", "a2"], vec!["b1"]]);
    assert_eq!(iter.next(), Some("a1"));
    assert_eq!(iter.next_back(), Some("b1"));
    assert_eq!(iter.next_back(), Some("a2"));
    assert_eq!(iter.next_back(), None);
    assert_eq!(iter.next(), None);
}

#[test]
fn front_reaches_what_the_back_opened() {
    let mut iter = flatten(vec![vec![1], vec![], vec![2, 3, 4]]);
    assert_eq!(iter.next_back(), Some(4));
    assert_eq!(iter.next(), Some(1));
    assert_eq!(iter.next(), Some(2));
    assert_eq!(iter.next(), Some(3));
    assert_eq!(iter.next(), None);
    assert_eq!(iter.next_back(), None);
}

#[test]
fn keeps_the_order_of_lists_and_elements() {
    let mut iter = flatten(vec![vec![1, 2], vec![], vec![3], vec![4, 5, 6]]);
    let mut seen = Vec::new();
    while let Some(item) = iter.next() {
        seen.push(item);
    }
    assert_eq!(seen, vec![1, 2, 3, 4, 5, 6]);
}

fn item<T>(step: Step<T>) -> Option<T> {
    match step {
        Step::Item(item) => Some(item),
        Step::Refill => None,
    }
}

#[test]
fn step_asks_for_a_list_when_nothing_is_at_hand() {
    let mut walk = flatten(Vec::<Vec<u8>>::new());
    assert!(matches!(walk.step(), Step::Refill));
    assert!(matches!(walk.step_back(), Step::Refill));
    walk.feed_front(vec![]);
    assert!(matches!(walk.step(), Step::Refill));
    walk.feed_front(vec![1, 2]);
    assert_eq!(item(walk.step()), Some(1));
    assert_eq!(item(walk.step()), Some(2));
    assert!(matches!(walk.step(), Step::Refill));
}

#[test]
fn lists_fed_from_the_front_follow_each_other() {
    let mut walk = flatten(vec![vec!['a']]);
    walk.feed_front(vec!['b', 'c']);
    walk.feed_front(vec!['d']);
    let mut seen = Vec::new();
    while let Some(letter) = walk.next() {
        seen.push(letter);
    }
    assert_eq!(seen, vec!['a', 'b', 'c', 'd']);
}

#[test]
fn lists_fed_from_the_back_precede_each_other() {
    let mut walk = flatten(Vec::new());
    walk.feed_back(vec![5, 6]);
    assert_eq!(item(walk.step_back()), Some(6));
    walk.feed_back(vec![3, 4]);
    walk.feed_front(vec![1, 2]);
    assert!(matches!(walk.step(), Step::Item(1)));
    let mut seen = Vec::new();
    while let Some(number) = walk.next_back() {
        seen.push(number);
    }
    assert_eq!(seen, vec![5, 4, 3, 2]);
}

#[test]
fn step_leaves_the_back_alone() {
    let mut walk = flatten(Vec::new());
    walk.feed_back(vec!['z']);
    assert!(matches!(walk.step(), Step::Refill));
    assert!(matches!(walk.step(), Step::Refill));
    assert_eq!(walk.next(), Some('z'));
    assert_eq!(walk.next(), None);
}

#[test]
fn endless_supply_of_lists_is_walked_as_it_comes() {
    let mut source = (0..).map(|i| (0..i).collect::<Vec<u32>>());
    let mut walk = flatten(Vec::new());
    let mut seen = Vec::new();
    while seen.len() < 10 {
        match walk.step() {
            Step::Item(number) => seen.push(number),
            Step::Refill => walk.feed_front(source.next().unwrap()),
        }
    }
    assert_eq!(seen, vec![0, 0, 1, 0, 1, 2, 0, 1, 2, 3]);
}

type Lists = std::vec::IntoIter<Vec<&'static str>>;

fn pull_back(walk: &mut Flatten<&'static str>, source: &mut Lists) -> Option<&'static str> {
    loop {
        match walk.step_back() {
            Step::Item(found) => return Some(found),
            Step::Refill => match source.next_back() {
                Some(list) => walk.feed_back(list),
                None => return walk.next_back(),
            },
        }
    }
}

fn pull_front(walk: &mut Flatten<&'static str>, source: &mut Lists) -> Option<&'static str> {
    loop {
        match walk.step() {
            Step::Item(found) => return Some(found),
            Step::Refill => match source.next() {
                Some(list) => walk.feed_front(list),
                None => return walk.next(),
            },
        }
    }
}

#[test]
fn both_ends_with_lists_fed_as_they_are_due() {
    let mut source = vec![vec!["a1", "a2", "a3"], vec!["b1", "b2", "b3"]].into_iter();
    let mut walk = flatten(Vec::new());
    assert_eq!(pull_back(&mut walk, &mut source), Some("b3"));
    assert_eq!(pull_front(&mut walk, &mut source), Some("a1"));
    assert_eq!(pull_front(&mut walk, &mut source), Some("a2"));
    assert_eq!(pull_front(&mut walk, &mut source), Some("a3"));
    assert_eq!(pull_back(&mut walk, &mut source), Some("b2"));
    assert_eq!(pull_back(&mut walk, &mut source), Some("b1"));
    assert_eq!(pull_front(&mut walk, &mut source), None);
    assert_eq!(pull_back(&mut walk, &mut source), None);
}
