use gobject_generation::entity::{EntityRecord, TypeTags};
use gobject_generation::repo_gen::{self, LoadError};
use gobject_generation::repository::Repository;
use gobject_generation::text::{build_call_line, join_with_commas};

fn function(name: &str, args: &[&str]) -> EntityRecord {
    EntityRecord {
        name: String::from(name),
        namespace: String::from("Fixture"),
        tags: TypeTags { is_object: false, is_struct: false, is_function: true },
        n_methods: 0,
        args: args.iter().map(|a| String::from(*a)).collect(),
    }
}

fn strukt(name: &str) -> EntityRecord {
    EntityRecord {
        name: String::from(name),
        namespace: String::from("Fixture"),
        tags: TypeTags { is_object: false, is_struct: true, is_function: false },
        n_methods: 0,
        args: Vec::new(),
    }
}

fn unknown(name: &str) -> EntityRecord {
    EntityRecord {
        name: String::from(name),
        namespace: String::from("Fixture"),
        tags: TypeTags { is_object: false, is_struct: false, is_function: false },
        n_methods: 0,
        args: Vec::new(),
    }
}

#[test]
fn empty_namespace_yields_valid_empty_module() {
    let mut repo = Repository::open(vec![]);
    let outcome = repo_gen::generate(Ok(()), &mut repo, "Empty");
    let text = outcome.expect("an empty namespace still serializes");
    assert!(text.contains("mod Empty"));
    assert!(!text.contains("struct"));
    assert!(!text.contains("fn "));
}

#[test]
fn frobnicate_becomes_tagged_wrapper_with_forwarding_body() {
    let mut repo = Repository::open(vec![function("frobnicate", &["a", "b"])]);
    let outcome = repo_gen::generate(Ok(()), &mut repo, "Fixture");
    let text = outcome.expect("the walk succeeds");
    assert!(text.contains("#[napi]"));
    assert!(text.contains("fn frobnicate"));
    assert!(text.contains("return frobnicate(a,b)"));
}

#[test]
fn load_failure_surfaces_message_verbatim_and_yields_no_output() {
    let mut repo = Repository::open(vec![strukt("Rect")]);
    let load_result: Result<(), LoadError> =
        Err(LoadError { message: String::from("version mismatch") });
    let outcome = repo_gen::generate(load_result, &mut repo, "Fixture");
    match outcome {
        Ok(_) => panic!("a failed load must not produce output"),
        Err(e) => assert_eq!(e.message, "version mismatch"),
    }
    assert_eq!(repo.acquire_count(0), 0);
    assert_eq!(repo.release_count(0), 0);
}

#[test]
fn unknown_entity_walk_completes_with_empty_module_and_balanced_handles() {
    let mut repo = Repository::open(vec![unknown("mystery")]);
    let outcome = repo_gen::generate(Ok(()), &mut repo, "Fixture");
    let text = outcome.expect("the walk succeeds");
    assert!(text.contains("mod Fixture"));
    assert!(!text.contains("struct"));
    assert!(!text.contains("fn "));
    assert_eq!(repo.acquire_count(0), 1);
    assert_eq!(repo.release_count(0), 1);
    assert!(repo.is_balanced());
}

#[test]
fn runs_over_equal_catalogs_produce_byte_identical_output() {
    let build = || {
        vec![
            strukt("Alpha"),
            function("frobnicate", &["a", "b"]),
            unknown("mystery"),
        ]
    };
    let mut first_repo = Repository::open(build());
    let first = repo_gen::generate(Ok(()), &mut first_repo, "Fixture").unwrap();
    let mut second_repo = Repository::open(build());
    let second = repo_gen::generate(Ok(()), &mut second_repo, "Fixture").unwrap();
    assert_eq!(first.as_bytes(), second.as_bytes());
}

#[test]
fn serialized_text_is_generated_syntax_not_the_input() {
    let mut repo = Repository::open(vec![strukt("Alpha")]);
    let text = repo_gen::generate(Ok(()), &mut repo, "Fixture").unwrap();
    assert!(text.contains("struct Alpha"));
    assert!(text.contains("mod Fixture"));
    assert_ne!(text, "Alpha");
    assert_ne!(text, "Fixture");
}

#[test]
fn joins_names_with_single_commas_in_order() {
    let names = vec![String::from("a"), String::from("b"), String::from("c")];
    assert_eq!(join_with_commas(&names), "a,b,c");
    let one = vec![String::from("solo")];
    assert_eq!(join_with_commas(&one), "solo");
    let none: Vec<String> = Vec::new();
    assert_eq!(join_with_commas(&none), "");
}

#[test]
fn call_line_forwards_joined_arguments_positionally() {
    let args = vec![String::from("x"), String::from("y")];
    assert_eq!(build_call_line("move_to", &args), "return move_to(x,y)");
    let no_args: Vec<String> = Vec::new();
    assert_eq!(build_call_line("init", &no_args), "return init()");
}
