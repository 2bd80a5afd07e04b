//! The setup descriptor: a chosen interface and an ordered list of shapes.

use crate::table::{collect_keys, entry_keys, find_entry, find_pair};
use vstd::prelude::*;

verus! {

/// One named shape: an optional container image and an optional environment.
///
/// An absent image means the shape is bookkeeping only, with no container to
/// manage.
#[derive(Debug)]
pub struct ShapeConfig {
    /// The container image backing this shape, if any.
    pub image: Option<String>,
    /// The environment to apply when the shape's container is started.
    pub env: Option<Vec<(String, String)>>,
}

/// The main section of a setup descriptor.
#[derive(Debug)]
pub struct SetupSection {
    /// The name of the interface this setup runs on, a key into the primary
    /// configuration's interface table.
    pub interface: String,
    /// The shape names in activation order.  Deactivation walks this list in
    /// exact reverse.  A name here need not exist in the shape table.
    pub shapes: Vec<String>,
}

/// A whole setup descriptor: the main section plus the shape table.
#[derive(Debug)]
pub struct SetupConfig {
    /// The main section.
    pub setup: SetupSection,
    /// The shapes by name, each name keying one shape.
    pub shapes: Vec<(String, ShapeConfig)>,
}

/// The mathematical image of a `ShapeConfig`.
pub struct ShapeConfigView {
    pub image: Option<Seq<char>>,
    pub env: Option<Seq<(Seq<char>, Seq<char>)>>,
}

/// The mathematical image of a `SetupSection`.
pub struct SetupSectionView {
    pub interface: Seq<char>,
    pub shapes: Seq<Seq<char>>,
}

/// The mathematical image of a `SetupConfig`.
pub struct SetupConfigView {
    pub setup: SetupSectionView,
    pub shapes: Seq<(Seq<char>, ShapeConfigView)>,
}

impl View for ShapeConfig {
    type V = ShapeConfigView;

    open spec fn view(&self) -> ShapeConfigView {
        ShapeConfigView { image: self.image.deep_view(), env: self.env.deep_view() }
    }
}

impl DeepView for ShapeConfig {
    type V = ShapeConfigView;

    open spec fn deep_view(&self) -> ShapeConfigView {
        self.view()
    }
}

impl View for SetupSection {
    type V = SetupSectionView;

    open spec fn view(&self) -> SetupSectionView {
        SetupSectionView { interface: self.interface@, shapes: self.shapes.deep_view() }
    }
}

impl DeepView for SetupSection {
    type V = SetupSectionView;

    open spec fn deep_view(&self) -> SetupSectionView {
        self.view()
    }
}

impl View for SetupConfig {
    type V = SetupConfigView;

    open spec fn view(&self) -> SetupConfigView {
        SetupConfigView { setup: self.setup@, shapes: self.shapes.deep_view() }
    }
}

impl DeepView for SetupConfig {
    type V = SetupConfigView;

    open spec fn deep_view(&self) -> SetupConfigView {
        self.view()
    }
}

fn clone_string_pairs(v: &Vec<(String, String)>) -> (r: Vec<(String, String)>)
    ensures
        r@ == v@,
        r.deep_view() == v.deep_view(),
{
    let mut out: Vec<(String, String)> = Vec::new();
    let mut i: usize = 0;
    while i < v.len()
        invariant
            0 <= i <= v@.len(),
            out@.len() == i,
            forall|j: int| 0 <= j < i ==> out@[j] == v@[j],
        decreases v@.len() - i,
    {
        let pair = &v[i];
        out.push((pair.0.clone(), pair.1.clone()));
        i += 1;
    }
    proof {
        assert(out@ =~= v@);
        assert(out.deep_view() =~= v.deep_view());
    }
    out
}

impl Clone for ShapeConfig {
    /// An exact copy: the clone has the same image and the same environment.
    fn clone(&self) -> (res: Self)
        ensures
            res@ == self@,
    {
        let image = match &self.image {
            Some(s) => Some(s.clone()),
            None => None,
        };
        let env = match &self.env {
            Some(v) => Some(clone_string_pairs(v)),
            None => None,
        };
        ShapeConfig { image, env }
    }
}

impl SetupConfig {
    /// The shape stored under `name`, or `None` when there is none.
    pub fn get_shape(&self, name: &str) -> (r: Option<&ShapeConfig>)
        ensures
            r.deep_view() == find_entry(self@.shapes, name@),
    {
        find_pair(&self.shapes, name)
    }

    /// Every shape name in the shape table, in table order.
    pub fn list_shapes(&self) -> (r: Vec<&String>)
        ensures
            r.deep_view() == entry_keys(self@.shapes),
    {
        collect_keys(&self.shapes)
    }

    /// The shape names the setup manages, in declared activation order.
    pub fn get_managed_shapes(&self) -> (r: &Vec<String>)
        ensures
            r.deep_view() == self@.setup.shapes,
    {
        &self.setup.shapes
    }
}

} // verus!
