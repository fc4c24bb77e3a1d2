use gobject_generation::entity::{EntityRecord, TypeTags};
use gobject_generation::gen_module::{
    GeneratedDecl, GeneratedFunction, GeneratedModule, GeneratedStruct,
};
use gobject_generation::namespace_gen;
use gobject_generation::repository::Repository;

fn entity(name: &str, tags: TypeTags, n_methods: usize, args: &[&str]) -> EntityRecord {
    EntityRecord {
        name: String::from(name),
        namespace: String::from("Fixture"),
        tags,
        n_methods,
        args: args.iter().map(|a| String::from(*a)).collect(),
    }
}

fn object(name: &str) -> EntityRecord {
    entity(name, TypeTags { is_object: true, is_struct: false, is_function: false }, 2, &[])
}

fn strukt(name: &str) -> EntityRecord {
    entity(name, TypeTags { is_object: false, is_struct: true, is_function: false }, 1, &[])
}

fn function(name: &str, args: &[&str]) -> EntityRecord {
    entity(name, TypeTags { is_object: false, is_struct: false, is_function: true }, 0, args)
}

fn unknown(name: &str) -> EntityRecord {
    entity(name, TypeTags { is_object: false, is_struct: false, is_function: false }, 0, &[])
}

#[test]
fn every_handle_acquired_and_released_exactly_once() {
    let fixture = vec![
        object("Window"),
        strukt("Rect"),
        function("area", &["width", "height"]),
        unknown("mystery"),
    ];
    let count = fixture.len();
    let mut repo = Repository::open(fixture);
    let _module = namespace_gen::generate(&mut repo, "Fixture");
    assert_eq!(repo.entity_count(), count);
    for i in 0..count {
        assert_eq!(repo.acquire_count(i), 1);
        assert_eq!(repo.release_count(i), 1);
    }
    assert!(repo.is_balanced());
}

#[test]
fn module_takes_namespace_name_verbatim() {
    let mut repo = Repository::open(vec![strukt("Rect")]);
    let module = namespace_gen::generate(&mut repo, "Gtk");
    assert_eq!(module.name, "Gtk");
}

#[test]
fn struct_entities_emit_one_struct_each_in_walk_order() {
    let fixture = vec![
        strukt("Alpha"),
        object("Window"),
        function("go", &[]),
        strukt("Beta"),
    ];
    let mut repo = Repository::open(fixture);
    let module = namespace_gen::generate(&mut repo, "Fixture");
    let struct_names: Vec<&str> = module
        .decls
        .iter()
        .filter_map(|d| match d {
            GeneratedDecl::Struct(s) => Some(s.name.as_str()),
            GeneratedDecl::Function(_) => None,
        })
        .collect();
    assert_eq!(struct_names, vec!["Alpha", "Beta"]);
}

#[test]
fn function_entity_emits_tagged_passthrough_wrapper() {
    let fixture = vec![function("draw", &["surface", "x", "y"])];
    let mut repo = Repository::open(fixture);
    let module = namespace_gen::generate(&mut repo, "Fixture");
    assert_eq!(module.decls.len(), 1);
    match &module.decls[0] {
        GeneratedDecl::Function(f) => {
            assert_eq!(f.name, "draw");
            assert_eq!(f.attrs, vec![String::from("napi")]);
            assert_eq!(f.body, "return draw(surface,x,y)");
        }
        GeneratedDecl::Struct(_) => panic!("expected a function declaration"),
    }
}

#[test]
fn object_and_unknown_entities_contribute_nothing() {
    let fixture = vec![object("Window"), unknown("mystery")];
    let mut repo = Repository::open(fixture);
    let module = namespace_gen::generate(&mut repo, "Fixture");
    assert_eq!(module.decls.len(), 0);
    assert_eq!(repo.acquire_count(0), 1);
    assert_eq!(repo.release_count(0), 1);
    assert_eq!(repo.acquire_count(1), 1);
    assert_eq!(repo.release_count(1), 1);
}

#[test]
fn emitter_keeps_insertion_order_without_deduplication() {
    let mut module = GeneratedModule::new_module(String::from("M"));
    module.push_struct(GeneratedStruct { name: String::from("A") });
    module.push_fn(GeneratedFunction {
        name: String::from("f"),
        attrs: vec![String::from("napi")],
        body: String::from("return f()"),
    });
    module.push_struct(GeneratedStruct { name: String::from("A") });
    assert_eq!(module.decls.len(), 3);
    assert!(matches!(&module.decls[0], GeneratedDecl::Struct(s) if s.name == "A"));
    assert!(matches!(&module.decls[1], GeneratedDecl::Function(f) if f.name == "f"));
    assert!(matches!(&module.decls[2], GeneratedDecl::Struct(s) if s.name == "A"));
}

#[test]
fn search_paths_are_prepended_in_front() {
    let mut repo = Repository::open(vec![]);
    repo.prepend_search_path(String::from("/usr/local/lib/girepository-1.0"));
    repo.prepend_search_path(String::from("/opt/lib/girepository-1.0"));
    assert_eq!(repo.search_path_count(), 2);
    assert_eq!(repo.search_path_at(0).as_str(), "/opt/lib/girepository-1.0");
    assert_eq!(repo.search_path_at(1).as_str(), "/usr/local/lib/girepository-1.0");
}
