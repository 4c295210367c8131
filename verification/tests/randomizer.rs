use crazy_train::generator::StringDef;
use crazy_train::randomizer::Randomizer;
use std::path::PathBuf;

#[test]
fn rand_number() {
    let mut randomizer = Randomizer::with_seed(42);
    assert_eq!(randomizer.number_between(1, 100), 27);
    assert_eq!(randomizer.number_between(1, 100), 52);
    assert_eq!(randomizer.number_between(1, 100), 98);
}

#[test]
fn rand_bool() {
    let mut randomizer = Randomizer::with_seed(42);
    assert!(randomizer.bool());
    assert!(!randomizer.bool());
    assert!(!randomizer.bool());
    assert!(!randomizer.bool());
    assert!(!randomizer.bool());
    assert!(!randomizer.bool());
    assert!(randomizer.bool());
}

#[test]
fn rand_string() {
    let mut randomizer = Randomizer::with_seed(42);
    assert_eq!(
        randomizer.string(StringDef::default()).to_string(),
        "noqkak".to_string()
    );
    assert_eq!(
        randomizer.string(StringDef::default()).to_string(),
        "twdayn".to_string()
    );
    assert_eq!(
        randomizer
            .string(StringDef {
                include_symbol: true,
                ..Default::default()
            })
            .to_string(),
        "kdnfa)".to_string()
    );

    assert_eq!(
        randomizer
            .string(StringDef {
                length: 10,
                ..Default::default()
            })
            .to_string(),
        "hdpnewfykq".to_string()
    );
    assert_eq!(
        randomizer
            .string(StringDef {
                include_unicode: true,
                ..Default::default()
            })
            .to_string(),
        "vjjp😓🙅".to_string()
    );
}

#[test]
fn rand_path() {
    let mut randomizer = Randomizer::with_seed(42);
    assert_eq!(randomizer.path(), PathBuf::from("gowqzkza"));
}

#[test]
fn shuffle() {
    let mut randomizer = Randomizer::with_seed(42);
    let list = vec![1, 2, 3, 4, 5, 6];
    assert_eq!(randomizer.shuffle(&list), vec![1, 5, 6, 3, 2, 4]);
}

#[test]
fn pick_random() {
    let mut randomizer = Randomizer::with_seed(42);
    let list = vec![1, 2, 3, 4, 5, 6];
    assert_eq!(randomizer.pick_random(&list), vec![2, 6]);
    assert_eq!(randomizer.pick_random(&list), vec![3, 1, 3, 5, 6, 1, 6]);
}

#[test]
fn number_between_stays_in_range() {
    let mut randomizer = Randomizer::with_seed(7);
    for _ in 0..200 {
        let number = randomizer.number_between(10, 13);
        assert!((10..=13).contains(&number));
    }
    assert_eq!(randomizer.number_between(5, 5), 5);
    assert_eq!(randomizer.number_between(0, 0), 0);
    let top = randomizer.number_between(u32::MAX - 1, u32::MAX);
    assert!(top >= u32::MAX - 1);
}

#[test]
fn seed_is_kept() {
    let mut randomizer = Randomizer::with_seed(42);
    assert_eq!(randomizer.seed, 42);
    randomizer.number_between(1, 2);
    randomizer.bool();
    randomizer.path();
    assert_eq!(randomizer.seed, 42);
}

#[test]
fn same_seed_same_draws() {
    for seed in [0, 1, 42, u64::MAX] {
        let mut first = Randomizer::with_seed(seed);
        let mut second = Randomizer::with_seed(seed);
        let list: Vec<u32> = (0..20).collect();
        let everything = StringDef {
            length: 30,
            include_unicode: true,
            include_symbol: true,
            include_capital_letters: true,
            include_numbers: true,
        };
        for _ in 0..10 {
            assert_eq!(first.number_between(3, 90), second.number_between(3, 90));
            assert_eq!(first.bool(), second.bool());
            assert_eq!(
                first.string(everything).to_string(),
                second.string(everything).to_string()
            );
            assert_eq!(first.path(), second.path());
            assert_eq!(first.shuffle(&list), second.shuffle(&list));
            assert_eq!(first.pick_random(&list), second.pick_random(&list));
        }
    }
}

#[test]
fn different_seeds_differ() {
    let mut first = Randomizer::with_seed(1);
    let mut second = Randomizer::with_seed(2);
    let a: Vec<u32> = (0..8).map(|_| first.number_between(0, 1_000_000)).collect();
    let b: Vec<u32> = (0..8).map(|_| second.number_between(0, 1_000_000)).collect();
    assert_ne!(a, b);
}

#[test]
fn default_randomizer_follows_its_seed() {
    let mut randomizer = Randomizer::default();
    let mut again = Randomizer::with_seed(randomizer.seed);
    for _ in 0..5 {
        assert_eq!(randomizer.number_between(0, 1000), again.number_between(0, 1000));
    }
}

#[test]
fn path_is_five_to_ten_lowercase_letters() {
    let mut randomizer = Randomizer::with_seed(3);
    for _ in 0..100 {
        let path = randomizer.path();
        let name = path.to_str().unwrap();
        assert!((5..=10).contains(&name.chars().count()));
        assert!(name.chars().all(|c| c.is_ascii_lowercase()));
    }
}

#[test]
fn shuffle_is_a_permutation() {
    let mut randomizer = Randomizer::with_seed(11);
    let list: Vec<String> = (0..25).map(|i| format!("item {}", i % 7)).collect();
    let before = list.clone();
    for _ in 0..50 {
        let mixed = randomizer.shuffle(&list);
        assert_eq!(list, before);
        assert_eq!(mixed.len(), list.len());
        let mut sorted_mixed = mixed.clone();
        let mut sorted_list = list.clone();
        sorted_mixed.sort();
        sorted_list.sort();
        assert_eq!(sorted_mixed, sorted_list);
    }
}

#[test]
fn shuffle_of_nothing_and_of_one() {
    let mut randomizer = Randomizer::with_seed(42);
    let nothing: Vec<u8> = Vec::new();
    assert_eq!(randomizer.shuffle(&nothing), nothing);
    assert_eq!(randomizer.shuffle(&[9]), vec![9]);
    assert_eq!(randomizer.number_between(1, 100), 27);
}

#[test]
fn pick_random_takes_one_to_ten_items_of_the_input() {
    let mut randomizer = Randomizer::with_seed(5);
    let list = vec!['a', 'b', 'c'];
    let mut repeated = false;
    for _ in 0..200 {
        let picked = randomizer.pick_random(&list);
        assert!((1..=10).contains(&picked.len()));
        assert!(picked.iter().all(|item| list.contains(item)));
        repeated = repeated || picked.len() > list.len();
    }
    assert!(repeated);
    assert_eq!(list, vec!['a', 'b', 'c']);
}

#[test]
fn pick_random_of_one_item() {
    let mut randomizer = Randomizer::with_seed(5);
    let picked = randomizer.pick_random(&["only"]);
    assert!(picked.iter().all(|item| *item == "only"));
}

#[test]
fn builder_sets_the_definition() {
    let mut randomizer = Randomizer::with_seed(42);
    let builder = randomizer
        .string(StringDef::default())
        .length(10)
        .include_unicode(true)
        .include_symbol(true)
        .include_capital_letters(true)
        .include_numbers(true);
    assert_eq!(builder.string_def.length, 10);
    assert!(builder.string_def.include_unicode);
    assert!(builder.string_def.include_symbol);
    assert!(builder.string_def.include_capital_letters);
    assert!(builder.string_def.include_numbers);
    let builder = builder.include_symbol(false).length(3);
    assert_eq!(builder.string_def.length, 3);
    assert!(!builder.string_def.include_symbol);
    assert!(builder.string_def.include_unicode);
}

#[test]
fn builder_draws_again_on_each_call() {
    let mut randomizer = Randomizer::with_seed(42);
    let mut builder = randomizer.string(StringDef::default());
    assert_eq!(builder.to_string(), "noqkak");
    assert_eq!(builder.to_string(), "twdayn");
    assert_eq!(
        randomizer.string(StringDef::default()).length(10).to_string(),
        "kdnfanbqvm"
    );
}

#[test]
fn builder_with_capital_letters() {
    let mut randomizer = Randomizer::with_seed(42);
    assert_eq!(randomizer.string(StringDef::default()).to_string(), "noqkak");
    assert_eq!(
        randomizer
            .string(StringDef::default())
            .include_capital_letters(true)
            .to_string(),
        "TWdAyN"
    );
}
