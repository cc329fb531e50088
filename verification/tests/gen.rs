use boozle::ast::{Decl, Id, Path, Svc, Type, Unit, Use};
use boozle::gen::{Forest, Tree};

fn plus_one(x: &u32) -> u32 {
    x.wrapping_add(1)
}

fn double(x: u32) -> u32 {
    x.wrapping_mul(2)
}

#[test]
fn tree_map_keeps_shape() {
    let tree = Tree::new(1u32, vec![Tree::leaf(2), Tree::new(3, vec![Tree::leaf(4)])]);
    let mapped = tree.map(plus_one);
    assert_eq!(mapped.root, 2);
    assert_eq!(mapped.children.len(), 2);
    assert_eq!(mapped.children[0].root, 3);
    assert!(mapped.children[0].children.is_empty());
    assert_eq!(mapped.children[1].root, 4);
    assert_eq!(mapped.children[1].children[0].root, 5);
}

#[test]
fn tree_map_into_keeps_shape() {
    let tree = Tree::new(1u32, vec![Tree::leaf(2), Tree::new(3, vec![Tree::leaf(4)])]);
    let mapped = tree.map_into(double);
    assert_eq!(mapped.root, 2);
    assert_eq!(mapped.children.len(), 2);
    assert_eq!(mapped.children[0].root, 4);
    assert_eq!(mapped.children[1].root, 6);
    assert_eq!(mapped.children[1].children[0].root, 8);
}

#[test]
fn tree_leaf_has_no_children() {
    let leaf = Tree::leaf(9u32);
    assert_eq!(leaf.root, 9);
    assert!(leaf.children.is_empty());
}

#[test]
fn forest_iteration() {
    let mut forest = Forest::new(vec![Tree::leaf(1u32), Tree::leaf(2)]);
    let roots: Vec<u32> = forest.iter().iter().map(|t| t.root).collect();
    assert_eq!(roots, vec![1, 2]);
    for tree in forest.iter_mut().iter_mut() {
        tree.root += 10;
    }
    let roots: Vec<u32> = forest.iter().iter().map(|t| t.root).collect();
    assert_eq!(roots, vec![11, 12]);
}

#[test]
fn unit_holds_declarations() {
    let unit = Unit {
        name: String::from("chat"),
        decls: vec![
            Decl::Use(Use {
                path: Path {
                    components: vec![Id { text: String::from("net") }],
                },
            }),
            Decl::Svc(Svc {
                name: Id { text: String::from("rooms") },
                ty: Type {
                    path: Path {
                        components: vec![Id { text: String::from("Rooms") }],
                    },
                },
            }),
        ],
    };
    assert_eq!(unit.name, "chat");
    assert_eq!(unit.decls.len(), 2);
    match &unit.decls[1] {
        Decl::Svc(svc) => assert_eq!(svc.name.text, "rooms"),
        other => panic!("expected a service, got {:?}", other),
    }
}
