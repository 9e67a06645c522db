use vstd::prelude::*;

verus! {

/// What the mesh store answered for an object's mesh reference.
///
/// `E` is the host's 3-vector of half extents.
#[derive(Clone, Copy)]
pub enum MeshLookup<E> {
    /// The object carries no mesh reference.
    NoMesh,
    /// The object names a mesh that the store does not hold (yet, or any more).
    Unresolved,
    /// The mesh was found; its axis-aligned bounding box gives these half
    /// extents, or nothing when its geometry is empty or degenerate.
    Resolved(Option<E>),
}

/// The half extents that highlight an object whose mesh lookup gave `mesh`,
/// with `fallback` standing for the default extent.
pub open spec fn resolved_extent<E>(mesh: MeshLookup<E>, fallback: E) -> E {
    match mesh {
        MeshLookup::Resolved(Some(half)) => half,
        _ => fallback,
    }
}

/// The transform snapshotted for an object whose world transform is
/// `transform`, with `identity` standing for the identity at the origin.
pub open spec fn resolved_transform<T>(transform: Option<T>, identity: T) -> T {
    match transform {
        Some(t) => t,
        None => identity,
    }
}

/// Bounding extent resolver: the highlight extent and the transform of an
/// object.
///
/// An absent transform becomes `identity`; an absent, unresolved or
/// degenerate mesh gives `default_extent`. Nothing is mutated and nothing
/// fails.
pub fn extract_scale_and_transform<T, E>(
    transform: Option<T>,
    mesh: MeshLookup<E>,
    identity: T,
    default_extent: E,
) -> (r: (E, T))
    ensures
        r.0 == resolved_extent(mesh, default_extent),
        r.1 == resolved_transform(transform, identity),
{
    let transform = match transform {
        Some(t) => t,
        None => identity,
    };
    let scale = match mesh {
        MeshLookup::Resolved(Some(half)) => half,
        _ => default_extent,
    };
    (scale, transform)
}

/// The resolver is a function of its inputs: identical inputs give identical
/// extent and transform.
pub proof fn lemma_resolver_deterministic<T, E>(
    t1: Option<T>,
    m1: MeshLookup<E>,
    id1: T,
    d1: E,
    t2: Option<T>,
    m2: MeshLookup<E>,
    id2: T,
    d2: E,
)
    requires
        t1 == t2,
        m1 == m2,
        id1 == id2,
        d1 == d2,
    ensures
        resolved_extent(m1, d1) == resolved_extent(m2, d2),
        resolved_transform(t1, id1) == resolved_transform(t2, id2),
{
}

/// Without a mesh reference the extent is the default one, whatever the
/// transform.
pub proof fn lemma_no_mesh_gives_default_extent<E>(fallback: E)
    ensures
        resolved_extent(MeshLookup::<E>::NoMesh, fallback) == fallback,
{
}

} // verus!
