use neon_core::arguments::{collect_args, prepare_call_args, Arguments};
use neon_core::classes::{Expando, EXPANDO_KEY};
use neon_core::events::{
    end_event, progress_events, test_emitter_command, CallbackOutcome, Emitter, TestEmitter,
    EMITTER_WORKERS, TEST_EMITTER_QUERY, WORKER_REPORT,
};
use neon_core::pokemon::{BenchOptions, BenchTarget, Egg, Evolution, Type};
use neon_core::values::Throw;

#[test]
fn egg_names() {
    assert_eq!(Egg::NotInEggs.name(), "Not in Eggs");
    assert_eq!(Egg::OmanyteCandy.name(), "Omanyte Candy");
    assert_eq!(Egg::The10Km.name(), "10 km");
    assert_eq!(Egg::The2Km.name(), "2 km");
    assert_eq!(Egg::The5Km.name(), "5 km");
    assert_eq!(Egg::from_name("2 km"), Some(Egg::The2Km));
    assert_eq!(Egg::from_name("2km"), None);
    assert_eq!(Egg::from_name(""), None);
}

#[test]
fn egg_name_round_trip() {
    for e in [Egg::NotInEggs, Egg::OmanyteCandy, Egg::The10Km, Egg::The2Km, Egg::The5Km] {
        assert_eq!(Egg::from_name(e.name()), Some(e));
    }
}

#[test]
fn type_names() {
    let all = [
        Type::Bug, Type::Dark, Type::Dragon, Type::Electric, Type::Fairy, Type::Fighting,
        Type::Fire, Type::Flying, Type::GhostType, Type::Grass, Type::Ground, Type::Ice,
        Type::Normal, Type::Poison, Type::Psychic, Type::Rock, Type::Steel, Type::Water,
    ];
    for t in all {
        assert_eq!(Type::from_name(t.name()), Some(t));
    }
    assert_eq!(Type::GhostType.name(), "Ghost");
    assert_eq!(Type::Psychic.name(), "Psychic");
    assert_eq!(Type::from_name("fire"), None);
    assert_eq!(Type::from_name("Fire"), Some(Type::Fire));
}

#[test]
fn evolution_fields() {
    let e = Evolution { num: "002".to_string(), name: "Ivysaur".to_string() };
    assert_eq!(e.clone().name, "Ivysaur");
    assert_eq!(e.num, "002");
}

#[test]
fn bench_plan() {
    let both = BenchOptions { report_file: None, neon: true, json: true };
    assert_eq!(both.targets(), vec![BenchTarget::Neon, BenchTarget::SerdeJson]);
    assert!(!both.profiled());
    let json = BenchOptions { report_file: Some("out.pb".to_string()), neon: false, json: true };
    assert_eq!(json.targets(), vec![BenchTarget::SerdeJson]);
    assert!(json.profiled());
    let none = BenchOptions { report_file: None, neon: false, json: false };
    assert_eq!(none.targets(), Vec::<BenchTarget>::new());
    assert_eq!(BenchTarget::Neon.name(), "neon");
    assert_eq!(BenchTarget::SerdeJson.name(), "serde_json");
}

#[test]
fn emitter_events() {
    let events = progress_events();
    assert_eq!(events.len(), EMITTER_WORKERS as usize);
    for (i, e) in events.iter().enumerate() {
        assert_eq!(e.name, "progress");
        assert_eq!(e.value, i as i32);
    }
    let end = end_event(&[true; 10]);
    assert_eq!(end.name, "end");
    assert_eq!(end.value, 100);
    let mut received = [true; 10];
    received[3] = false;
    assert_eq!(end_event(&received).value, 9 * WORKER_REPORT);
    assert_eq!(end_event(&[]).value, 0);
}

#[test]
fn emitter_binding() {
    let mut e = Emitter::new();
    assert_eq!(e.start(), None);
    e.bind(7);
    assert_eq!(e.start(), Some(7));
    e.shutdown();
    assert_eq!(e.start(), None);
    let mut t = TestEmitter::new();
    t.bind(9);
    assert_eq!(t.start(), Some(9));
    t.shutdown();
    assert_eq!(t.start(), None);
}

#[test]
fn test_emitter_commands() {
    assert_eq!(TEST_EMITTER_QUERY, "number");
    assert_eq!(test_emitter_command(&CallbackOutcome::Number { is_twelve: true }), "done");
    assert_eq!(test_emitter_command(&CallbackOutcome::Number { is_twelve: false }), "wrong number");
    assert_eq!(test_emitter_command(&CallbackOutcome::NotNumber), "no number returned");
    assert_eq!(test_emitter_command(&CallbackOutcome::Threw(Throw)), "threw JavaScript Error");
}

#[test]
fn expando_reads_back_what_it_set() {
    let e = Expando::new();
    assert_eq!(e.expando(), 42);
    assert_eq!(EXPANDO_KEY, "__weirdNeonExpandoKey__");
}

#[test]
fn arguments_keep_their_order() {
    let (argc, argv) = prepare_call_args((1u64, 2u64, 3u64).into_args_vec()).unwrap();
    assert_eq!(argc, 3);
    assert_eq!(argv, vec![1, 2, 3]);
    let (argc, argv) = prepare_call_args(().into_args_vec()).unwrap();
    assert_eq!((argc, argv), (0, vec![]));
    let many: Vec<u64> = (0..20).collect();
    let (argc, argv) = prepare_call_args(many.clone().into_args_vec()).unwrap();
    assert_eq!(argc, 20);
    assert_eq!(argv, many);
    let eight = (1u64, 2u64, 3u64, 4u64, 5u64, 6u64, 7u64, 8u64);
    let (_, argv) = prepare_call_args(eight.into_args_vec()).unwrap();
    assert_eq!(argv, vec![1, 2, 3, 4, 5, 6, 7, 8]);
    let (_, argv) = prepare_call_args((5u64,).into_args_vec()).unwrap();
    assert_eq!(argv, vec![5]);
}

#[test]
fn too_many_arguments() {
    let many: Vec<u64> = (0..65536).collect();
    assert_eq!(prepare_call_args(collect_args(&many)), Err("too many arguments"));
    let limit: Vec<u64> = (0..65535).collect();
    assert_eq!(prepare_call_args(collect_args(&limit)).unwrap().0, 65535);
}

#[test]
fn thirty_two_arguments() {
    let t = (
        0u64, 1u64, 2u64, 3u64, 4u64, 5u64, 6u64, 7u64, 8u64, 9u64, 10u64, 11u64, 12u64, 13u64,
        14u64, 15u64, 16u64, 17u64, 18u64, 19u64, 20u64, 21u64, 22u64, 23u64, 24u64, 25u64,
        26u64, 27u64, 28u64, 29u64, 30u64, 31u64,
    );
    let (argc, argv) = prepare_call_args(t.into_args_vec()).unwrap();
    assert_eq!(argc, 32);
    assert_eq!(argv, (0..32).collect::<Vec<u64>>());
    let nine = (9u64, 8u64, 7u64, 6u64, 5u64, 4u64, 3u64, 2u64, 1u64);
    let (_, argv) = prepare_call_args(nine.into_args_vec()).unwrap();
    assert_eq!(argv, vec![9, 8, 7, 6, 5, 4, 3, 2, 1]);
}
