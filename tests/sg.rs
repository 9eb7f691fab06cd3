use threedge::sg::SceneGraph;

#[test]
fn test_get_root() {
    let graph: SceneGraph<_, u32> = SceneGraph::new(42u32);
    assert_eq!(42u32, graph.root().data);
    assert_eq!(0, graph.root().props);
}

#[test]
fn test_children_iter() {
    let mut graph: SceneGraph<_, u32> = SceneGraph::new(1u32);

    graph.push_with_props(0, 2u32, 1234);
    graph.push(0, 3u32);

    let values: Vec<_> = graph.root().children().iter().map(|&id| graph.node(id).unwrap().props).collect();
    assert_eq!(vec![1234, 0], values);
}

#[test]
fn test_children_iter_mut() {
    let mut graph: SceneGraph<_, u32> = SceneGraph::new(1u32);

    graph.push_with_props(0, 2u32, 1234);
    graph.push(0, 3u32);

    let children = graph.root().children().to_vec();
    for child in children {
        *graph.props_mut(child) += 1
    }

    let values: Vec<_> = graph.root().children().iter().map(|&id| graph.node(id).unwrap().props).collect();
    assert_eq!(vec![1235, 1], values);
}

#[test]
fn test_traverse() {
    let mut graph: SceneGraph<_, u32> = SceneGraph::new(1u32);

    let child1 = graph.push_with_props(0, 2u32, 1234);
    graph.push(0, 3u32);
    let grandchild = graph.push(child1, 4u32);

    let children = graph.root().children().to_vec();
    for child in children {
        *graph.props_mut(child) += 1
    }

    let values: Vec<_> = graph.root().children().iter().map(|&id| graph.node(id).unwrap().props).collect();
    assert_eq!(vec![1235, 1], values);
    assert_eq!(graph.node(grandchild).unwrap().parent(), Some(child1));
    assert_eq!(graph.node(child1).unwrap().children(), &[grandchild]);
}

#[test]
fn ids_follow_creation_order() {
    let mut graph: SceneGraph<u32, u32> = SceneGraph::new(0);
    assert_eq!(graph.push(0, 1), 1);
    assert_eq!(graph.push(1, 2), 2);
    *graph.data_mut(2) = 20;
    assert_eq!(graph.node(2).unwrap().data, 20);
    assert!(graph.node(3).is_none());
    assert_eq!(graph.root().parent(), None);
}
