use blueprint::{Left, Orbit, Right};
use yaoi::blueprints::{Blueprints, BlueprintsLayers};

struct NoError;
struct NoPosition;

#[derive(Debug)]
struct FirstLayer;
#[derive(Debug)]
struct SecondLayer;
#[derive(Debug)]
struct App;

impl Orbit for FirstLayer {
    type Position = NoPosition;
    type Error = NoError;
    fn advance_with<B, L: Left, R: Right>(
        &mut self,
        _: &mut B,
        _: &mut L,
        _: &mut R,
    ) -> Result<Self::Position, Self::Error> {
        unreachable!()
    }
}

impl Orbit for SecondLayer {
    type Position = NoPosition;
    type Error = NoError;
    fn advance_with<B, L: Left, R: Right>(
        &mut self,
        _: &mut B,
        _: &mut L,
        _: &mut R,
    ) -> Result<Self::Position, Self::Error> {
        unreachable!()
    }
}

impl Orbit for App {
    type Position = NoPosition;
    type Error = NoError;
    fn advance_with<B, L: Left, R: Right>(
        &mut self,
        _: &mut B,
        _: &mut L,
        _: &mut R,
    ) -> Result<Self::Position, Self::Error> {
        unreachable!()
    }
}

#[derive(Debug)]
enum MyApp {
    First(FirstLayer),
    Second(SecondLayer),
    App(App),
}

impl Orbit for MyApp {
    type Position = NoPosition;
    type Error = NoError;
    fn advance_with<B, L: Left, R: Right>(
        &mut self,
        _: &mut B,
        _: &mut L,
        _: &mut R,
    ) -> Result<Self::Position, Self::Error> {
        unreachable!()
    }
}

#[test]
fn construct_2_w_app() {
    let _blueprints =
        BlueprintsLayers::<2>::layers([MyApp::First(FirstLayer), MyApp::Second(SecondLayer)])
            .app(MyApp::App(App));
}

#[test]
fn construct_app_only() {
    let _blueprints = BlueprintsLayers::<0>::no_layers().app(MyApp::App(App));
}

#[test]
fn blueprints_count_layers_and_app() {
    let bp: Blueprints<2, MyApp> =
        BlueprintsLayers::<2>::layers([MyApp::First(FirstLayer), MyApp::Second(SecondLayer)])
            .app(MyApp::App(App));
    assert_eq!(bp.count_all_layers(), 3);
    let only_app: Blueprints<0, MyApp> = BlueprintsLayers::<0>::no_layers().app(MyApp::App(App));
    assert_eq!(only_app.count_all_layers(), 1);
}

#[test]
fn blueprints_borrow_layers_and_app() {
    let mut bp = BlueprintsLayers::<2>::layers([1u32, 2u32]).app(9u32);
    bp.layers_as_mut()[1] = 5;
    *bp.app_as_mut() = 10;
    assert_eq!(*bp.layers_as_mut(), [1, 5]);
    assert_eq!(*bp.app_as_mut(), 10);
    let seen: Vec<u32> = bp.layers_iter_mut().map(|x| *x).collect();
    assert_eq!(seen, vec![1, 5]);
}

#[test]
fn blueprints_borrow_one_layer() {
    let mut bp = BlueprintsLayers::<3>::layers([1u32, 2u32, 3u32]).app(9u32);
    *bp.layer_mut(2) = 30;
    *bp.layer_mut(0) += 10;
    assert_eq!(*bp.layers_as_mut(), [11, 2, 30]);
    assert_eq!(*bp.app_as_mut(), 9);
}
