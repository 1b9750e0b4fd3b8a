//! Blueprints: the orbits a stream's data runs through, intermediate layers
//! first and the terminating App last.

use vstd::prelude::*;

verus! {

/// `<[O]>::iter_mut` on an array: an iterator over mutable references to
/// its items in order; the iterator is opaque here, so nothing is stated.
#[verifier::external_body]
fn array_iter_mut<'a, const N: usize, O>(a: &'a mut [O; N]) -> core::slice::IterMut<'a, O> {
    a.iter_mut()
}

/// Intermediate layers and the terminating App layer.
#[derive(Clone, Debug)]
pub struct Blueprints<const Layers: usize, O> {
    layers: [O; Layers],
    app: O,
}

impl<const Layers: usize, O> Blueprints<Layers, O> {
    /// The intermediate layers.
    pub closed spec fn layers_seq(&self) -> Seq<O> {
        self.layers@
    }

    /// The terminating App layer.
    pub closed spec fn app_layer(&self) -> O {
        self.app
    }

    /// Borrow the intermediate layers as mutable.
    pub fn layers_as_mut(&mut self) -> (r: &mut [O; Layers])
        ensures
            r@ == old(self).layers_seq(),
            final(self).layers_seq() == final(r)@,
            final(self).app_layer() == old(self).app_layer(),
    {
        &mut self.layers
    }

    /// Borrow the terminating App layer as mutable.
    pub fn app_as_mut(&mut self) -> (r: &mut O)
        ensures
            *r == old(self).app_layer(),
            final(self).app_layer() == *final(r),
            final(self).layers_seq() == old(self).layers_seq(),
    {
        &mut self.app
    }

    /// Borrow intermediate layer `i` as mutable.
    pub fn layer_mut(&mut self, i: usize) -> (r: &mut O)
        requires
            i < Layers,
        ensures
            *r == old(self).layers_seq()[i as int],
            final(self).layers_seq() == old(self).layers_seq().update(i as int, *final(r)),
            final(self).app_layer() == old(self).app_layer(),
    {
        &mut self.layers[i]
    }

    /// Iterate the intermediate layers mutably.
    pub fn layers_iter_mut<'a>(&'a mut self) -> core::slice::IterMut<'a, O> {
        array_iter_mut(&mut self.layers)
    }

    /// Count of all layers: the intermediate ones and the App.
    pub fn count_all_layers(&self) -> (r: usize)
        requires
            Layers < usize::MAX,
        ensures
            r == Layers + 1,
    {
        Layers + 1
    }
}

/// Blueprints constructor that needs the layers.
pub struct BlueprintsLayers<const Layers: usize>;

impl<const Layers: usize> BlueprintsLayers<Layers> {
    /// Set the intermediate layers.
    pub fn layers<O>(orbits: [O; Layers]) -> (r: BlueprintsNeedApp<Layers, O>)
        ensures
            r.layers_seq() == orbits@,
    {
        BlueprintsNeedApp { layers: orbits }
    }

    /// No intermediate layers.
    pub fn no_layers<O>() -> (r: BlueprintsNeedApp<0, O>)
        ensures
            r.layers_seq().len() == 0,
    {
        BlueprintsNeedApp { layers: [] }
    }
}

/// Blueprints constructor that needs the App.
pub struct BlueprintsNeedApp<const Layers: usize, O> {
    layers: [O; Layers],
}

impl<const Layers: usize, O> BlueprintsNeedApp<Layers, O> {
    /// The intermediate layers.
    pub closed spec fn layers_seq(&self) -> Seq<O> {
        self.layers@
    }

    /// Set the terminating App layer.
    pub fn app(self, app: O) -> (r: Blueprints<Layers, O>)
        ensures
            r.layers_seq() == self.layers_seq(),
            r.app_layer() == app,
    {
        Blueprints::<Layers, _> { layers: self.layers, app }
    }
}

} // verus!
