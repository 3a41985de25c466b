use rustracer::coordinate::{Canvas, Coordinate, Screen, World};
use rustracer::vector::{General, Kind, Normal};
use std::marker::PhantomData;

struct Tagged<K: Kind> {
    value: i32,
    _k: PhantomData<K>,
}

struct Placed<C: Coordinate> {
    column: i32,
    _c: PhantomData<C>,
}

fn needs_unit(v: &Tagged<Normal>) -> i32 {
    v.value
}

fn needs_world(p: &Placed<World>) -> i32 {
    p.column
}

#[test]
fn vector_markers_take_no_space() {
    assert_eq!(0, std::mem::size_of::<General>());
    assert_eq!(0, std::mem::size_of::<Normal>());
    assert_eq!(
        std::mem::size_of::<i32>(),
        std::mem::size_of::<Tagged<General>>()
    );
}

#[test]
fn coordinate_markers_take_no_space() {
    assert_eq!(0, std::mem::size_of::<Screen>());
    assert_eq!(0, std::mem::size_of::<Canvas>());
    assert_eq!(0, std::mem::size_of::<World>());
    assert_eq!(
        std::mem::size_of::<i32>(),
        std::mem::size_of::<Placed<Screen>>()
    );
}

#[test]
fn markers_print_their_names() {
    assert_eq!("General", format!("{:?}", General()));
    assert_eq!("Normal", format!("{:?}", Normal()));
    assert_eq!("Screen", format!("{:?}", Screen()));
    assert_eq!("Canvas", format!("{:?}", Canvas()));
    assert_eq!("World", format!("{:?}", World()));
}

#[test]
fn a_unit_vector_is_accepted_where_one_is_required() {
    let v = Tagged::<Normal> {
        value: 7,
        _k: PhantomData,
    };
    assert_eq!(7, needs_unit(&v));
}

#[test]
fn a_world_position_is_accepted_where_one_is_required() {
    let p = Placed::<World> {
        column: 3,
        _c: PhantomData,
    };
    assert_eq!(3, needs_world(&p));
}

#[test]
fn the_two_flavours_are_distinct_types() {
    assert_ne!(
        std::any::TypeId::of::<General>(),
        std::any::TypeId::of::<Normal>()
    );
}

#[test]
fn the_three_spaces_are_distinct_types() {
    let screen = std::any::TypeId::of::<Screen>();
    let canvas = std::any::TypeId::of::<Canvas>();
    let world = std::any::TypeId::of::<World>();
    assert_ne!(screen, canvas);
    assert_ne!(screen, world);
    assert_ne!(canvas, world);
}
