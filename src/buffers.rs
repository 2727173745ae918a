use vstd::prelude::*;

verus! {

/// The kinds of vertex object the driver generates in bulk.
#[derive(Debug, Clone, Copy, PartialEq, Eq, Structural)]
pub enum VertexObjectKind {
    VertexArray,
    Buffer,
}

/// A kind of vertex object: names which bulk generate and destroy calls of
/// the driver apply to it.
pub trait VertexResourceLifecycle {
    spec fn spec_kind() -> VertexObjectKind;

    fn kind() -> (r: VertexObjectKind)
        ensures
            r == Self::spec_kind(),
    ;
}

/// Vertex array objects.
pub struct VertexArrayLifecycle;

impl VertexResourceLifecycle for VertexArrayLifecycle {
    open spec fn spec_kind() -> VertexObjectKind {
        VertexObjectKind::VertexArray
    }

    fn kind() -> (r: VertexObjectKind) {
        VertexObjectKind::VertexArray
    }
}

/// Vertex buffer objects.
pub struct VertexBufferLifecycle;

impl VertexResourceLifecycle for VertexBufferLifecycle {
    open spec fn spec_kind() -> VertexObjectKind {
        VertexObjectKind::Buffer
    }

    fn kind() -> (r: VertexObjectKind) {
        VertexObjectKind::Buffer
    }
}

/// Exclusive owner of `N` vertex objects of one kind, acquired together by
/// one generate call and given up together for one destroy call.
pub struct VertexResource<const N: usize, T: VertexResourceLifecycle> {
    handles: [u32; N],
    kind: std::marker::PhantomData<T>,
}

impl<const N: usize, T: VertexResourceLifecycle> View for VertexResource<N, T> {
    type V = Seq<u32>;

    closed spec fn view(&self) -> Seq<u32> {
        self.handles@
    }
}

impl<const N: usize, T: VertexResourceLifecycle> VertexResource<N, T> {
    /// Takes ownership of the handles one generate call returned.
    pub fn new(handles: [u32; N]) -> (r: Self)
        ensures
            r@ == handles@,
    {
        VertexResource { handles, kind: std::marker::PhantomData }
    }

    /// The kind of the objects held.
    pub fn kind(&self) -> (r: VertexObjectKind)
        ensures
            r == T::spec_kind(),
    {
        T::kind()
    }

    pub fn handle_at(&self, idx: usize) -> (r: u32)
        requires
            idx < N,
        ensures
            r == self@[idx as int],
    {
        self.handles[idx]
    }

    /// Gives up all the objects: the handles returned are those the destroy
    /// call must receive, every one of them, once.
    pub fn release(self) -> (r: [u32; N])
        ensures
            r@ == self@,
    {
        self.handles
    }
}

impl<T: VertexResourceLifecycle> VertexResource<1, T> {
    /// The lone handle of a single-object resource.
    pub fn handle(&self) -> (r: u32)
        ensures
            r == self@[0],
    {
        self.handles[0]
    }
}

} // verus!
