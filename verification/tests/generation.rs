use rand::Rng;
use galaxy_rs::{
    Chart, DataPoint, Fault, Galaxy, GalaxyBuilder, Generation, NodeType, Phase, Point, Reply, Request, Scalar,
};

fn s(x: f64) -> Scalar {
    Scalar::from_bits(x.to_bits())
}

fn f(x: Scalar) -> f64 {
    f64::from_bits(x.to_bits())
}

fn pt(x: f64, y: f64) -> Point {
    Point::new(s(x), s(y))
}

fn xy(p: Point) -> (f64, f64) {
    (f(p.x), f(p.y))
}

fn dist(a: (f64, f64), b: (f64, f64)) -> f64 {
    let (dx, dy) = (a.0 - b.0, a.1 - b.1);
    (dx * dx + dy * dy).sqrt()
}

fn polar(r: f64, theta: f64) -> (f64, f64) {
    (theta.cos() * r, theta.sin() * r)
}

fn distances(generation: &Generation, from: (f64, f64)) -> Vec<Scalar> {
    generation.positions().into_iter().map(|p| s(dist(from, xy(p)))).collect()
}

/// A source of numbers that does not repeat itself.
struct Random;

impl Random {
    fn between(&mut self, low: f64, high: f64) -> f64 {
        rand::thread_rng().gen_range(low, high)
    }
}

/// A source of numbers that repeats itself from run to run.
struct Draws(u64);

impl Draws {
    fn between(&mut self, low: f64, high: f64) -> f64 {
        assert!(low < high);
        self.0 = self.0.wrapping_mul(6364136223846793005).wrapping_add(1442695040888963407);
        let unit = (self.0 >> 11) as f64 / (1u64 << 53) as f64;
        low + (high - low) * unit
    }
}

/// Evaluates one request the way the formulas ask.
fn perform(config: &GalaxyBuilder, generation: &Generation, request: Request, draws: &mut Draws) -> Reply {
    let radius = f(config.cloud_radius);
    match request {
        Request::Reach => Reply::Reach(s(radius * 2.0)),
        Request::Bone { from, angle, divisor } => {
            let from = xy(from);
            let step = polar(radius, f(angle));
            let position = (from.0 + step.0, from.1 + step.1);
            let travel = (position.0 - from.0, position.1 - from.1);
            let length = dist(travel, (0.0, 0.0));
            Reply::Bone {
                position: pt(position.0, position.1),
                direction: pt(travel.0 / length, travel.1 / length),
                angle: s(f(angle) + f(config.arm_slope) / f(divisor)),
                divisor: s(f(divisor) + f(config.slope_factor)),
                distances: distances(generation, position),
            }
        }
        Request::Span { normal, iteration } => {
            let normal = xy(normal);
            let stride = radius * 2.0;
            let scale = |v: f64| v * iteration as f64 * stride * f(config.arm_width_factor);
            let normale = (scale(normal.0), scale(normal.1));
            let length = dist(normale, (0.0, 0.0));
            Reply::Span { normale: pt(normale.0, normale.1), whole: (length / stride).floor() as u32 }
        }
        Request::Offset { origin, normale, parts, step } => {
            let (origin, normale) = (xy(origin), xy(normale));
            let part = (normale.0 / parts as f64, normale.1 / parts as f64);
            let n = step as f64;
            let plus = (origin.0 + part.0 * n, origin.1 + part.1 * n);
            let minus = (origin.0 - part.0 * n, origin.1 - part.1 * n);
            let plus_distances = distances(generation, plus);
            let mut minus_distances = distances(generation, minus);
            minus_distances.push(s(dist(minus, plus)));
            Reply::Offset {
                plus: pt(plus.0, plus.1),
                minus: pt(minus.0, minus.1),
                plus_distances,
                minus_distances,
            }
        }
        Request::Turn { angle } => {
            Reply::Turn(s(f(angle) + (2.0 * std::f64::consts::PI) / config.nb_arms as f64))
        }
        Request::Radius { center } => Reply::Radius(distances(generation, xy(center))),
        Request::Loner { center, radius } => {
            let angle = draws.between(0.0, 2.0 * std::f64::consts::PI);
            let away = draws.between(0.0, f(radius));
            let offset = polar(away, angle);
            let point = (xy(center).0 + offset.0, xy(center).1 + offset.1);
            Reply::Placed { point: pt(point.0, point.1), distances: distances(generation, point) }
        }
        Request::Candidate { around } => {
            let angle = draws.between(0.0, 2.0 * std::f64::consts::PI);
            let away = draws.between(config.min_distance.map(f).unwrap_or(0.0), radius);
            let offset = polar(away, angle);
            let point = (xy(around).0 + offset.0, xy(around).1 + offset.1);
            Reply::Placed { point: pt(point.0, point.1), distances: distances(generation, point) }
        }
        Request::Done => unreachable!(),
    }
}

fn generate(config: &GalaxyBuilder, center: Point, seed: u64) -> Option<Galaxy> {
    let generation = config.build(center)?;
    let draws = std::cell::RefCell::new(Draws(seed));
    let galaxy = generation.run(|generation, request| perform(config, generation, request, &mut draws.borrow_mut()));
    Some(galaxy.unwrap())
}

fn generate_by_hand(config: &GalaxyBuilder, center: Point, seed: u64) -> Option<Galaxy> {
    let mut generation = config.build(center)?;
    let mut draws = Draws(seed);
    loop {
        let request = generation.request();
        if request == Request::Done {
            break;
        }
        let reply = perform(config, &generation, request, &mut draws);
        assert_eq!(generation.advance(reply), Ok(()));
    }
    assert!(generation.is_done());
    generation.finish()
}

fn points(galaxy: Galaxy) -> Vec<DataPoint<NodeType>> {
    let mut all = Vec::new();
    let mut rest = galaxy.into_iter();
    while let Some(p) = rest.next() {
        all.push(p);
    }
    all
}

fn count(all: &[DataPoint<NodeType>], kind: NodeType) -> usize {
    all.iter().filter(|p| p.data == kind).count()
}

fn bare() -> GalaxyBuilder {
    GalaxyBuilder::default().nb_loners(0).nb_arms(1).nb_arm_bones(1).cloud_population(0)
}

#[test]
fn a_root_and_one_link() {
    let config = bare();
    let galaxy = generate(&config, pt(3.0, -2.0), 1).unwrap();
    let all = points(galaxy);
    assert_eq!(all.len(), 2);
    assert_eq!(all[0].data, NodeType::Root);
    assert_eq!(xy(all[0].point), (3.0, -2.0));
    assert_eq!(all[1].data, NodeType::Arm);
    let radius = f(config.cloud_radius);
    assert_eq!(xy(all[1].point), (3.0 + radius * 0f64.cos(), -2.0 + radius * 0f64.sin()));
    assert_eq!(xy(all[1].point), (19.0, -2.0));
}

#[test]
fn without_width_a_branch_is_one_point_a_side_on_the_arm() {
    let config = bare().nb_arm_bones(4).arm_width_factor(s(0.0));
    let galaxy = generate(&config, pt(0.0, 0.0), 1).unwrap();
    let chart = galaxy.into_mapped(|p| *p);
    let all = chart.nodes;
    assert_eq!(count(&all, NodeType::Arm), 4);
    assert_eq!(count(&all, NodeType::Ext), 6);
    let kinds: Vec<NodeType> = all.iter().map(|p| p.data).collect();
    assert_eq!(
        kinds,
        vec![
            NodeType::Root,
            NodeType::Arm,
            NodeType::Arm,
            NodeType::Ext,
            NodeType::Ext,
            NodeType::Arm,
            NodeType::Ext,
            NodeType::Ext,
            NodeType::Arm,
            NodeType::Ext,
            NodeType::Ext,
        ]
    );
    for arm in [2usize, 5, 8] {
        assert_eq!(xy(all[arm + 1].point), xy(all[arm].point));
        assert_eq!(xy(all[arm + 2].point), xy(all[arm].point));
        assert!(chart.links.contains(&(arm, arm + 1)));
        assert!(chart.links.contains(&(arm, arm + 2)));
    }
}

#[test]
fn a_wide_branch_has_a_chain_on_each_side() {
    let config = bare().nb_arm_bones(3).arm_width_factor(s(1.0)).cloud_radius(s(1.0)).arm_slope(s(0.0));
    let galaxy = generate(&config, pt(0.0, 0.0), 1).unwrap();
    let chart = galaxy.into_mapped(|p| *p);
    let kinds: Vec<NodeType> = chart.nodes.iter().map(|p| p.data).collect();
    // The second link spans a width of one stride: two points a side. The third spans two
    // strides: three points a side.
    assert_eq!(count(&chart.nodes, NodeType::Ext), 2 * 2 + 2 * 3);
    assert_eq!(kinds[0..3], [NodeType::Root, NodeType::Arm, NodeType::Arm]);
    assert_eq!(
        chart.links,
        vec![
            (0, 1),
            (1, 2),
            (2, 3),
            (2, 4),
            (3, 5),
            (4, 6),
            (2, 7),
            (7, 8),
            (7, 9),
            (8, 10),
            (9, 11),
            (10, 12),
            (11, 13),
        ]
    );
    // The arm runs along the first axis, so the branch runs along the second.
    let arm = xy(chart.nodes[2].point);
    assert_eq!(xy(chart.nodes[3].point), (arm.0, arm.1 + 1.0));
    assert_eq!(xy(chart.nodes[4].point), (arm.0, arm.1 - 1.0));
    assert_eq!(xy(chart.nodes[5].point), (arm.0, arm.1 + 2.0));
    assert_eq!(xy(chart.nodes[6].point), (arm.0, arm.1 - 2.0));
}

#[test]
fn the_census_of_the_default_galaxy() {
    let config = GalaxyBuilder::default();
    let all = points(generate(&config, pt(0.0, 0.0), 7).unwrap());
    assert_eq!(count(&all, NodeType::Root), 1);
    assert_eq!(count(&all, NodeType::Arm), 5 * 12);
    assert_eq!(count(&all, NodeType::Loner), 16);
    let ext = count(&all, NodeType::Ext);
    assert_eq!(ext, 5 * 11 * 2);
    let hosts = 1 + 60 + ext + 16;
    assert_eq!(count(&all, NodeType::System), 2 * hosts);
    assert_eq!(all.len(), 3 * hosts);
}

#[test]
fn every_node_but_the_root_and_the_outliers_hangs_on_one_edge() {
    let config = GalaxyBuilder::default().arm_width_factor(s(0.25)).min_distance(Some(s(5.0)));
    let chart = generate(&config, pt(-4.0, 9.0), 29).unwrap().into_mapped(|p| p.data);
    let hanging = chart.nodes.iter().filter(|k| **k != NodeType::Root && **k != NodeType::Loner).count();
    assert_eq!(chart.links.len(), hanging);
    let mut parents = vec![0usize; chart.nodes.len()];
    for (from, to) in chart.links.iter() {
        assert!(from < to);
        parents[*to] += 1;
        let fits = match chart.nodes[*to] {
            NodeType::Arm => matches!(chart.nodes[*from], NodeType::Root | NodeType::Arm),
            NodeType::Ext => matches!(chart.nodes[*from], NodeType::Arm | NodeType::Ext),
            NodeType::System => chart.nodes[*from] != NodeType::System,
            NodeType::Root | NodeType::Loner => false,
        };
        assert!(fits);
    }
    for (node, kind) in chart.nodes.iter().enumerate() {
        let expected = if *kind == NodeType::Root || *kind == NodeType::Loner { 0 } else { 1 };
        assert_eq!(parents[node], expected);
    }
}

#[test]
fn a_galaxy_from_random_draws() {
    let config = GalaxyBuilder::default()
        .cloud_population(2)
        .cloud_radius(s(4.0))
        .nb_arms(5)
        .nb_arm_bones(32)
        .slope_factor(s(0.4))
        .arm_slope(s(std::f64::consts::PI / 4.0))
        .arm_width_factor(s(1.0 / 24.0))
        .min_distance(Some(s(2.0)));
    let mut random = Random;
    let mut twin = Draws(0);
    let mut generation = config.build(pt(0.0, 0.0)).unwrap();
    while !generation.is_done() {
        let reply = match generation.request() {
            Request::Loner { center, radius } => {
                let offset = polar(random.between(0.0, f(radius)), random.between(0.0, 2.0 * std::f64::consts::PI));
                let point = (xy(center).0 + offset.0, xy(center).1 + offset.1);
                Reply::Placed { point: pt(point.0, point.1), distances: distances(&generation, point) }
            }
            Request::Candidate { around } => {
                let angle = random.between(0.0, 2.0 * std::f64::consts::PI);
                let offset = polar(random.between(2.0, 4.0), angle);
                let point = (xy(around).0 + offset.0, xy(around).1 + offset.1);
                Reply::Placed { point: pt(point.0, point.1), distances: distances(&generation, point) }
            }
            request => perform(&config, &generation, request, &mut twin),
        };
        assert_eq!(generation.advance(reply), Ok(()));
    }
    let all = points(generation.finish().unwrap());
    assert_eq!(count(&all, NodeType::Root), 1);
    assert_eq!(count(&all, NodeType::Arm), 5 * 32);
    assert_eq!(count(&all, NodeType::Loner), 16);
    let hosts = all.iter().filter(|p| p.data != NodeType::System).count();
    assert!(count(&all, NodeType::System) <= 2 * hosts);
    assert_eq!(count(&all, NodeType::Ext) % 2, 0);
}

#[test]
fn what_is_no_number_passes_through() {
    // Without a radius the links of an arm coincide, their direction has no length, and
    // its unit vector is no number; neither are the branch points that follow from it.
    let config = bare().nb_arm_bones(2).cloud_radius(s(0.0));
    let chart = generate(&config, pt(1.0, 2.0), 1).unwrap().into_mapped(|p| *p);
    let kinds: Vec<NodeType> = chart.nodes.iter().map(|p| p.data).collect();
    assert_eq!(kinds, vec![NodeType::Root, NodeType::Arm, NodeType::Arm, NodeType::Ext, NodeType::Ext]);
    assert_eq!(xy(chart.nodes[1].point), (1.0, 2.0));
    assert_eq!(xy(chart.nodes[2].point), (1.0, 2.0));
    for ext in [3usize, 4] {
        assert!(chart.nodes[ext].point.x.is_nan());
        assert!(chart.nodes[ext].point.y.is_nan());
    }
    assert_eq!(chart.links, vec![(0, 1), (1, 2), (2, 3), (2, 4)]);
}

#[test]
fn arms_times_bones() {
    for (arms, bones) in [(0u64, 0u64), (0, 5), (4, 0), (1, 1), (3, 7), (6, 2)] {
        let config = GalaxyBuilder::default().nb_arms(arms).nb_arm_bones(bones).nb_loners(0).cloud_population(1);
        let all = points(generate(&config, pt(1.0, 1.0), 3).unwrap());
        assert_eq!(count(&all, NodeType::Root), 1);
        assert_eq!(count(&all, NodeType::Arm) as u64, arms * bones);
        assert_eq!(count(&all, NodeType::Loner), 0);
    }
}

#[test]
fn arms_leave_the_root_evenly_and_bend() {
    let config = bare().nb_arms(4).nb_arm_bones(2).cloud_radius(s(2.0)).arm_slope(s(0.5)).slope_factor(s(1.0));
    let chart = generate(&config, pt(0.0, 0.0), 1).unwrap().into_mapped(|p| *p);
    let arms: Vec<(f64, f64)> =
        chart.nodes.iter().filter(|p| p.data == NodeType::Arm).map(|p| xy(p.point)).collect();
    assert_eq!(arms.len(), 8);
    let step = 2.0 * std::f64::consts::PI / 4.0;
    let mut angle = 0.0f64;
    for arm in 0..4 {
        let first = polar(2.0, angle);
        let bend = polar(2.0, angle + 0.5 / 1.0);
        assert_eq!(arms[2 * arm], (0.0 + first.0, 0.0 + first.1));
        assert_eq!(arms[2 * arm + 1], (first.0 + bend.0, first.1 + bend.1));
        angle += step;
    }
    assert_eq!(arms[0], (2.0, 0.0));
}

#[test]
fn a_mapped_galaxy_has_the_nodes_and_edges_of_the_galaxy() {
    let config = GalaxyBuilder::default().nb_arms(2).nb_arm_bones(3).nb_loners(2);
    let inner = generate(&config, pt(0.0, 0.0), 11).unwrap().into_inner();
    let chart: Chart<DataPoint<NodeType>> = generate(&config, pt(0.0, 0.0), 11).unwrap().into_mapped(|p| *p);
    assert_eq!(chart.nodes.len(), inner.node_count());
    assert_eq!(chart.links.len(), inner.edge_count());
    for (i, node) in chart.nodes.iter().enumerate() {
        let weight = inner.node_weight(petgraph::graph::NodeIndex::new(i)).unwrap();
        assert_eq!(weight.point, node.point);
        assert_eq!(weight.data, node.data);
    }
    for (i, link) in chart.links.iter().enumerate() {
        let (a, b) = inner.edge_endpoints(petgraph::graph::EdgeIndex::new(i)).unwrap();
        assert_eq!((a.index(), b.index()), *link);
    }
    let kinds = generate(&config, pt(0.0, 0.0), 11).unwrap().into_mapped(|p| p.data);
    assert_eq!(kinds.nodes.len(), chart.nodes.len());
    assert_eq!(kinds.links, chart.links);
    assert_eq!(kinds.nodes[0], NodeType::Root);
}

#[test]
fn the_galaxy_keeps_frame_edges_only() {
    // One arm of two links, a cloud of one around each of the three nodes: two edges of the
    // arm, two branch points with an edge each, and one edge for every cloud point.
    let config = bare().nb_arm_bones(2).cloud_population(1).arm_width_factor(s(0.0));
    let inner = generate(&config, pt(0.0, 0.0), 5).unwrap().into_inner();
    assert_eq!(inner.node_count(), 10);
    assert_eq!(inner.edge_count(), 2 + 2 + 5);
    for edge in inner.edge_indices() {
        let (a, b) = inner.edge_endpoints(edge).unwrap();
        assert!(a.index() < b.index());
    }
}

#[test]
fn points_come_in_the_order_of_their_identifiers() {
    let config = GalaxyBuilder::default().nb_arms(2).nb_arm_bones(2).nb_loners(1).cloud_population(1);
    let all = points(generate(&config, pt(0.0, 0.0), 9).unwrap());
    let chart = generate(&config, pt(0.0, 0.0), 9).unwrap().into_mapped(|p| *p);
    assert_eq!(all.len(), chart.nodes.len());
    for (a, b) in all.iter().zip(chart.nodes.iter()) {
        assert_eq!(a.point, b.point);
        assert_eq!(a.data, b.data);
    }
    let mut rest = generate(&config, pt(0.0, 0.0), 9).unwrap().into_iter();
    for _ in 0..all.len() {
        assert!(rest.next().is_some());
    }
    assert!(rest.next().is_none());
    assert!(rest.next().is_none());
}

#[test]
fn clouds_grow_around_the_nodes_placed_before_them() {
    let config = GalaxyBuilder::default().nb_arms(1).nb_arm_bones(2).nb_loners(3).cloud_population(4);
    let chart = generate(&config, pt(0.0, 0.0), 13).unwrap().into_mapped(|p| *p);
    let hosts = chart.nodes.iter().filter(|p| p.data != NodeType::System).count();
    assert_eq!(hosts, 1 + 2 + 2 + 3);
    assert_eq!(chart.nodes.len(), hosts * 5);
    for (i, node) in chart.nodes.iter().enumerate() {
        assert_eq!(node.data == NodeType::System, i >= hosts);
        if i >= hosts {
            let host = (i - hosts) / 4;
            assert!(chart.links.contains(&(host, i)));
            let away = dist(xy(node.point), xy(chart.nodes[host].point));
            assert!(away < 16.0 + 1.0e-9);
        }
    }
    for loner in chart.nodes.iter().filter(|p| p.data == NodeType::Loner) {
        assert!(dist(xy(loner.point), (0.0, 0.0)) < 32.0 + 1.0e-9);
    }
    for (i, node) in chart.nodes.iter().enumerate() {
        if node.data == NodeType::Loner {
            assert!(chart.links.iter().all(|l| l.1 != i));
        }
    }
}

#[test]
fn the_radius_is_the_largest_distance_from_the_root() {
    let config = bare().nb_arms(3).nb_arm_bones(4).nb_loners(1);
    let center = pt(5.0, 5.0);
    let mut generation = config.build(center).unwrap();
    let mut draws = Draws(1);
    loop {
        let request = generation.request();
        if let Request::Loner { center: c, radius } = request {
            assert_eq!(c, center);
            let largest = generation.positions().iter().map(|p| dist(xy(*p), (5.0, 5.0))).fold(0.0, f64::max);
            assert!(largest > 16.0);
            assert_eq!(f(radius), largest);
            break;
        }
        let reply = perform(&config, &generation, request, &mut draws);
        assert_eq!(generation.advance(reply), Ok(()));
    }
}

#[test]
fn the_radius_passes_over_what_is_no_number() {
    let config = bare().nb_arm_bones(0).nb_loners(1);
    let mut generation = config.build(pt(0.0, 0.0)).unwrap();
    assert_eq!(generation.advance(Reply::Reach(s(32.0))), Ok(()));
    assert_eq!(generation.request(), Request::Turn { angle: s(0.0) });
    assert_eq!(generation.advance(Reply::Turn(s(6.0))), Ok(()));
    assert_eq!(generation.request(), Request::Radius { center: pt(0.0, 0.0) });
    assert_eq!(generation.advance(Reply::Radius(vec![s(f64::NAN)])), Ok(()));
    assert_eq!(generation.request(), Request::Loner { center: pt(0.0, 0.0), radius: s(0.0) });
}

/// A generation of one arm of one link, led by hand up to its first candidate.
fn at_the_cloud(config: GalaxyBuilder) -> Generation {
    let mut generation = config.build(pt(0.0, 0.0)).unwrap();
    assert_eq!(generation.request(), Request::Reach);
    assert_eq!(generation.advance(Reply::Reach(s(32.0))), Ok(()));
    assert_eq!(generation.request(), Request::Bone { from: pt(0.0, 0.0), angle: s(0.0), divisor: s(1.0) });
    let bone = Reply::Bone {
        position: pt(16.0, 0.0),
        direction: pt(1.0, 0.0),
        angle: s(0.5),
        divisor: s(1.9),
        distances: vec![s(16.0)],
    };
    assert_eq!(generation.advance(bone), Ok(()));
    assert_eq!(generation.request(), Request::Turn { angle: s(0.0) });
    assert_eq!(generation.advance(Reply::Turn(s(6.25))), Ok(()));
    assert_eq!(generation.request(), Request::Radius { center: pt(0.0, 0.0) });
    assert_eq!(generation.advance(Reply::Radius(vec![s(0.0), s(16.0)])), Ok(()));
    assert_eq!(generation.request(), Request::Candidate { around: pt(0.0, 0.0) });
    generation
}

#[test]
fn a_crowded_candidate_is_dropped() {
    let config = bare().cloud_population(2).min_distance(Some(s(2.0)));
    let mut generation = at_the_cloud(config);
    // The link overlaps the root and hangs on it, so the root is its own two-hop neighbour,
    // and its only one: the link is one hop away, not two.
    let on_the_root = Reply::Placed { point: pt(1.0, 0.0), distances: vec![s(1.0), s(15.0)] };
    assert_eq!(generation.advance(on_the_root), Ok(()));
    assert_eq!(generation.positions().len(), 2);
    let on_the_link = Reply::Placed { point: pt(16.0, 2.0), distances: vec![s(2.0), s(0.5)] };
    assert_eq!(generation.advance(on_the_link), Ok(()));
    assert_eq!(generation.positions().len(), 3);
    // Around the link, the root, the link and the cloud point of the root are all two hops away.
    assert_eq!(generation.request(), Request::Candidate { around: pt(16.0, 0.0) });
    let on_the_cloud = Reply::Placed { point: pt(16.0, 3.0), distances: vec![s(5.0), s(5.0), s(1.0)] };
    assert_eq!(generation.advance(on_the_cloud), Ok(()));
    assert_eq!(generation.positions().len(), 3);
    let clear = Reply::Placed { point: pt(18.0, 0.0), distances: vec![s(2.0), s(2.0), s(2.0)] };
    assert_eq!(generation.advance(clear), Ok(()));
    assert_eq!(generation.positions().len(), 4);
    assert!(generation.is_done());
    let chart = generation.finish().unwrap().into_mapped(|p| *p);
    assert_eq!(chart.links, vec![(0, 1), (0, 2), (1, 3)]);
    assert_eq!(xy(chart.nodes[2].point), (16.0, 2.0));
    assert_eq!(xy(chart.nodes[3].point), (18.0, 0.0));
    assert_eq!(chart.nodes[3].data, NodeType::System);
}

#[test]
fn a_candidate_is_checked_against_its_host() {
    let config = bare().cloud_population(1).min_distance(Some(s(2.0)));
    let mut generation = at_the_cloud(config);
    assert_eq!(generation.advance(Reply::Placed { point: pt(9.0, 0.0), distances: vec![s(9.0), s(7.0)] }), Ok(()));
    assert_eq!(generation.request(), Request::Candidate { around: pt(16.0, 0.0) });
    let close = Reply::Placed { point: pt(15.0, 0.0), distances: vec![s(15.0), s(1.0), s(6.0)] };
    assert_eq!(generation.advance(close), Ok(()));
    assert_eq!(generation.positions().len(), 3);
    assert!(generation.is_done());
}

#[test]
fn nodes_out_of_reach_are_not_checked() {
    let config = bare().cloud_population(1).min_distance(Some(s(2.0)));
    let mut generation = config.build(pt(0.0, 0.0)).unwrap();
    assert_eq!(generation.advance(Reply::Reach(s(32.0))), Ok(()));
    // The link is reported out of the root's reach, so no edge records them as overlapping:
    // around the link, only the root is two hops away, through the cloud point of the root.
    let bone = Reply::Bone {
        position: pt(16.0, 0.0),
        direction: pt(1.0, 0.0),
        angle: s(0.5),
        divisor: s(1.9),
        distances: vec![s(32.0)],
    };
    assert_eq!(generation.advance(bone), Ok(()));
    assert_eq!(generation.advance(Reply::Turn(s(6.25))), Ok(()));
    assert_eq!(generation.advance(Reply::Radius(vec![s(0.0), s(16.0)])), Ok(()));
    assert_eq!(generation.advance(Reply::Placed { point: pt(9.0, 0.0), distances: vec![s(9.0), s(7.0)] }), Ok(()));
    let close = Reply::Placed { point: pt(15.0, 0.0), distances: vec![s(15.0), s(1.0), s(1.0)] };
    assert_eq!(generation.advance(close), Ok(()));
    assert_eq!(generation.positions().len(), 4);
}

#[test]
fn without_a_least_distance_every_candidate_is_kept() {
    let config = bare().cloud_population(1);
    let mut generation = at_the_cloud(config);
    assert_eq!(generation.advance(Reply::Placed { point: pt(0.0, 0.0), distances: vec![s(0.0), s(16.0)] }), Ok(()));
    let close = Reply::Placed { point: pt(0.0, 0.0), distances: vec![s(0.0), s(0.0), s(0.0)] };
    assert_eq!(generation.advance(close), Ok(()));
    assert_eq!(generation.positions().len(), 4);
}

#[test]
fn with_a_least_distance_clouds_keep_clear_of_their_neighbours() {
    let config = GalaxyBuilder::default()
        .cloud_population(2)
        .cloud_radius(s(4.0))
        .nb_arms(5)
        .nb_arm_bones(8)
        .slope_factor(s(0.4))
        .arm_slope(s(std::f64::consts::PI / 4.0))
        .arm_width_factor(s(1.0 / 24.0))
        .min_distance(Some(s(2.0)));
    let free = config.min_distance(None);
    let kept = points(generate(&config, pt(0.0, 0.0), 17).unwrap());
    let all = points(generate(&free, pt(0.0, 0.0), 17).unwrap());
    let hosts = count(&all, NodeType::Root) + count(&all, NodeType::Arm) + count(&all, NodeType::Ext) + 16;
    assert_eq!(count(&all, NodeType::System), 2 * hosts);
    assert!(count(&kept, NodeType::System) < 2 * hosts);
    assert!(count(&kept, NodeType::System) > 0);
    assert_eq!(count(&kept, NodeType::Arm), 40);
}

#[test]
fn a_run_is_the_replies_taken_one_by_one() {
    let config = GalaxyBuilder::default().nb_arms(3).nb_arm_bones(5).min_distance(Some(s(3.0)));
    let led = generate(&config, pt(2.0, 2.0), 23).unwrap().into_mapped(|p| *p);
    let stepped = generate_by_hand(&config, pt(2.0, 2.0), 23).unwrap().into_mapped(|p| *p);
    assert_eq!(led.links, stepped.links);
    assert_eq!(led.nodes.len(), stepped.nodes.len());
    for (a, b) in led.nodes.iter().zip(stepped.nodes.iter()) {
        assert_eq!(a.point, b.point);
        assert_eq!(a.data, b.data);
    }
}

#[test]
fn a_run_ends_with_the_first_reply_that_is_refused() {
    let config = bare();
    let wrong = config.build(pt(0.0, 0.0)).unwrap().run(|_, _| Reply::Turn(s(0.0)));
    assert_eq!(wrong.err(), Some(Fault::Mismatch));
    let short = config.build(pt(0.0, 0.0)).unwrap().run(|_, request| match request {
        Request::Reach => Reply::Reach(s(32.0)),
        _ => Reply::Radius(vec![]),
    });
    assert_eq!(short.err(), Some(Fault::Mismatch));
}

#[test]
fn the_graph_walks_the_edges_of_a_node_from_the_newest() {
    let mut graph = petgraph::graph::Graph::<u8, u8>::new();
    let nodes: Vec<_> = (0..4).map(|n| graph.add_node(n)).collect();
    assert_eq!(nodes[3].index(), 3);
    graph.add_edge(nodes[1], nodes[0], 10);
    graph.add_edge(nodes[2], nodes[1], 11);
    graph.add_edge(nodes[1], nodes[3], 12);
    graph.add_edge(nodes[1], nodes[0], 13);
    graph.add_edge(nodes[0], nodes[1], 14);
    graph.add_edge(nodes[1], nodes[1], 15);
    let leaving: Vec<u8> = graph.edges(nodes[1]).map(|e| *e.weight()).collect();
    assert_eq!(leaving, vec![15, 13, 12, 10]);
    let arriving: Vec<u8> =
        graph.edges_directed(nodes[1], petgraph::Direction::Incoming).map(|e| *e.weight()).collect();
    assert_eq!(arriving, vec![15, 14, 11]);
    let kept = graph.filter_map(|_, n| Some(*n), |_, e| if e % 2 == 0 { Some(()) } else { None });
    assert_eq!(kept.node_count(), 4);
    let ends: Vec<(usize, usize)> = kept
        .edge_indices()
        .map(|e| kept.edge_endpoints(e).unwrap())
        .map(|(a, b)| (a.index(), b.index()))
        .collect();
    assert_eq!(ends, vec![(1, 0), (1, 3), (0, 1)]);
}

#[test]
fn a_reply_to_another_request_is_refused() {
    let config = bare();
    let mut generation = config.build(pt(0.0, 0.0)).unwrap();
    assert_eq!(generation.request(), Request::Reach);
    assert_eq!(generation.advance(Reply::Turn(s(1.0))), Err(Fault::Mismatch));
    assert_eq!(generation.advance(Reply::Radius(vec![s(0.0)])), Err(Fault::Mismatch));
    assert_eq!(generation.advance(Reply::Span { normale: pt(0.0, 0.0), whole: 0 }), Err(Fault::Mismatch));
    assert_eq!(
        generation.advance(Reply::Placed { point: pt(0.0, 0.0), distances: vec![s(0.0)] }),
        Err(Fault::Mismatch)
    );
    assert_eq!(generation.request(), Request::Reach);
    assert_eq!(generation.positions().len(), 1);
    assert!(!generation.is_done());
    assert_eq!(generation.advance(Reply::Reach(s(32.0))), Ok(()));
    assert_eq!(generation.advance(Reply::Reach(s(32.0))), Err(Fault::Mismatch));
    assert!(generation.finish().is_none());
}

#[test]
fn distances_must_cover_every_node() {
    let config = bare().nb_arm_bones(2).arm_width_factor(s(0.0));
    let mut generation = config.build(pt(0.0, 0.0)).unwrap();
    assert_eq!(generation.advance(Reply::Reach(s(32.0))), Ok(()));
    let bone = |distances: Vec<Scalar>| Reply::Bone {
        position: pt(16.0, 0.0),
        direction: pt(1.0, 0.0),
        angle: s(0.0),
        divisor: s(1.0),
        distances,
    };
    assert_eq!(generation.advance(bone(vec![])), Err(Fault::Mismatch));
    assert_eq!(generation.advance(bone(vec![s(16.0), s(1.0)])), Err(Fault::Mismatch));
    assert_eq!(generation.positions().len(), 1);
    assert_eq!(generation.advance(bone(vec![s(16.0)])), Ok(()));
    assert_eq!(generation.advance(bone(vec![s(32.0), s(16.0)])), Ok(()));
    assert_eq!(generation.request(), Request::Span { normal: pt(-0.0, 1.0), iteration: 1 });
    assert_eq!(generation.advance(Reply::Span { normale: pt(0.0, 0.0), whole: 0 }), Ok(()));
    let request = Request::Offset { origin: pt(16.0, 0.0), normale: pt(0.0, 0.0), parts: 1, step: 1 };
    assert_eq!(generation.request(), request);
    let pair = |plus_distances: Vec<Scalar>, minus_distances: Vec<Scalar>| Reply::Offset {
        plus: pt(16.0, 0.0),
        minus: pt(16.0, 0.0),
        plus_distances,
        minus_distances,
    };
    let three = vec![s(16.0), s(0.0), s(16.0)];
    let four = vec![s(16.0), s(0.0), s(16.0), s(0.0)];
    assert_eq!(generation.advance(pair(three.clone(), three.clone())), Err(Fault::Mismatch));
    assert_eq!(generation.advance(pair(four.clone(), four.clone())), Err(Fault::Mismatch));
    assert_eq!(generation.request(), request);
    assert_eq!(generation.positions().len(), 3);
    assert_eq!(generation.advance(pair(three, four)), Ok(()));
    assert_eq!(generation.positions().len(), 5);
    assert_eq!(generation.request(), Request::Turn { angle: s(0.0) });
}

#[test]
fn the_phases_of_a_small_galaxy() {
    let config = bare().nb_arm_bones(2).nb_loners(1).cloud_population(1);
    let mut generation = config.build(pt(0.0, 0.0)).unwrap();
    let mut draws = Draws(21);
    let mut seen = Vec::new();
    loop {
        let request = generation.request();
        seen.push(match request {
            Request::Reach => Phase::Reach,
            Request::Bone { .. } => Phase::Bone,
            Request::Span { .. } => Phase::Span,
            Request::Offset { .. } => Phase::Offset,
            Request::Turn { .. } => Phase::Turn,
            Request::Radius { .. } => Phase::Radius,
            Request::Loner { .. } => Phase::Loner,
            Request::Candidate { .. } => Phase::Candidate,
            Request::Done => Phase::Done,
        });
        if request == Request::Done {
            break;
        }
        let reply = perform(&config, &generation, request, &mut draws);
        assert_eq!(generation.advance(reply), Ok(()));
    }
    assert_eq!(
        seen,
        vec![
            Phase::Reach,
            Phase::Bone,
            Phase::Bone,
            Phase::Span,
            Phase::Offset,
            Phase::Turn,
            Phase::Radius,
            Phase::Loner,
            Phase::Candidate,
            Phase::Candidate,
            Phase::Candidate,
            Phase::Candidate,
            Phase::Candidate,
            Phase::Candidate,
            Phase::Done,
        ]
    );
}
