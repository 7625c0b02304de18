use vstd::prelude::*;
use crate::tensor::{ParamId, TensorData, TensorKind, TensorView};

verus! {

/// One parameter as a traversal presents it: identifier, element kind, data.
pub type Visit = (ParamId, TensorKind, TensorView);

/// A read-only traversal over a module's parameters. Its effect is described on
/// its view: each call moves the view by `visited`.
pub trait ModuleVisitor: View + Sized {
    /// The view after one parameter was visited.
    spec fn visited(s: Self::V, id: ParamId, kind: TensorKind, t: TensorView) -> Self::V;

    fn visit_float(&mut self, id: &ParamId, t: &TensorData)
        ensures
            final(self)@ == Self::visited(old(self)@, *id, TensorKind::Float, t@),
    ;

    fn visit_int(&mut self, id: &ParamId, t: &TensorData)
        ensures
            final(self)@ == Self::visited(old(self)@, *id, TensorKind::Int, t@),
    ;

    fn visit_bool(&mut self, id: &ParamId, t: &TensorData)
        ensures
            final(self)@ == Self::visited(old(self)@, *id, TensorKind::Bool, t@),
    ;
}

/// The view of a visitor after it visited `ps` in order, starting from `s`.
pub open spec fn visit_all<V: ModuleVisitor>(s: V::V, ps: Seq<Visit>) -> V::V
    decreases ps.len(),
{
    if ps.len() == 0 {
        s
    } else {
        let last = ps.last();
        V::visited(visit_all::<V>(s, ps.drop_last()), last.0, last.1, last.2)
    }
}

/// A rewriting traversal over a module's parameters. `mapped` is what a call
/// returns, `next` the view after it.
pub trait ModuleMapper: View + Sized {
    spec fn mapped(s: Self::V, id: ParamId, kind: TensorKind, t: TensorView) -> TensorView;

    spec fn next(s: Self::V, id: ParamId, kind: TensorKind, t: TensorView) -> Self::V;

    fn map_float(&mut self, id: &ParamId, t: TensorData) -> (r: TensorData)
        ensures
            r@ == Self::mapped(old(self)@, *id, TensorKind::Float, t@),
            final(self)@ == Self::next(old(self)@, *id, TensorKind::Float, t@),
    ;

    fn map_int(&mut self, id: &ParamId, t: TensorData) -> (r: TensorData)
        ensures
            r@ == Self::mapped(old(self)@, *id, TensorKind::Int, t@),
            final(self)@ == Self::next(old(self)@, *id, TensorKind::Int, t@),
    ;

    fn map_bool(&mut self, id: &ParamId, t: TensorData) -> (r: TensorData)
        ensures
            r@ == Self::mapped(old(self)@, *id, TensorKind::Bool, t@),
            final(self)@ == Self::next(old(self)@, *id, TensorKind::Bool, t@),
    ;
}

/// The view of a mapper after it mapped `ps` in order, starting from `s`.
pub open spec fn map_all<M: ModuleMapper>(s: M::V, ps: Seq<Visit>) -> M::V
    decreases ps.len(),
{
    if ps.len() == 0 {
        s
    } else {
        let last = ps.last();
        M::next(map_all::<M>(s, ps.drop_last()), last.0, last.1, last.2)
    }
}

/// What the mapper returns for the `i`-th of `ps`, having mapped those before it.
pub open spec fn mapped_at<M: ModuleMapper>(s: M::V, ps: Seq<Visit>, i: int) -> TensorView {
    M::mapped(map_all::<M>(s, ps.take(i)), ps[i].0, ps[i].1, ps[i].2)
}

pub proof fn lemma_visit_all_step<V: ModuleVisitor>(s: V::V, ps: Seq<Visit>, i: int)
    requires
        0 <= i < ps.len(),
    ensures
        visit_all::<V>(s, ps.take(i + 1)) == V::visited(
            visit_all::<V>(s, ps.take(i)),
            ps[i].0,
            ps[i].1,
            ps[i].2,
        ),
{
    assert(ps.take(i + 1).drop_last() =~= ps.take(i));
}

pub proof fn lemma_map_all_step<M: ModuleMapper>(s: M::V, ps: Seq<Visit>, i: int)
    requires
        0 <= i < ps.len(),
    ensures
        map_all::<M>(s, ps.take(i + 1)) == M::next(
            map_all::<M>(s, ps.take(i)),
            ps[i].0,
            ps[i].1,
            ps[i].2,
        ),
{
    assert(ps.take(i + 1).drop_last() =~= ps.take(i));
}

/// A visitor that records the identifier, kind and shape of each parameter.
pub struct ParamCollector {
    pub seen: Vec<(ParamId, TensorKind, Vec<usize>)>,
}

impl View for ParamCollector {
    type V = Seq<(ParamId, TensorKind, Seq<usize>)>;

    open spec fn view(&self) -> Self::V {
        self.seen@.map_values(|e: (ParamId, TensorKind, Vec<usize>)| (e.0, e.1, e.2@))
    }
}

impl ParamCollector {
    pub fn new() -> (r: ParamCollector)
        ensures
            r@ == Seq::<(ParamId, TensorKind, Seq<usize>)>::empty(),
    {
        let r = ParamCollector { seen: Vec::new() };
        assert(r@ =~= Seq::<(ParamId, TensorKind, Seq<usize>)>::empty());
        r
    }

    fn record(&mut self, id: &ParamId, kind: TensorKind, t: &TensorData)
        ensures
            final(self)@ == old(self)@.push((*id, kind, t@.shape)),
    {
        let shape = crate::tensor::copy_usizes(&t.shape);
        self.seen.push((*id, kind, shape));
        assert(self@ =~= old(self)@.push((*id, kind, t@.shape)));
    }
}

impl ModuleVisitor for ParamCollector {
    open spec fn visited(
        s: Seq<(ParamId, TensorKind, Seq<usize>)>,
        id: ParamId,
        kind: TensorKind,
        t: TensorView,
    ) -> Seq<(ParamId, TensorKind, Seq<usize>)> {
        s.push((id, kind, t.shape))
    }

    fn visit_float(&mut self, id: &ParamId, t: &TensorData) {
        self.record(id, TensorKind::Float, t);
    }

    fn visit_int(&mut self, id: &ParamId, t: &TensorData) {
        self.record(id, TensorKind::Int, t);
    }

    fn visit_bool(&mut self, id: &ParamId, t: &TensorData) {
        self.record(id, TensorKind::Bool, t);
    }
}

/// A mapper that hands every tensor back unchanged.
pub struct IdentityMapper;

impl View for IdentityMapper {
    type V = ();

    open spec fn view(&self) -> () {
        ()
    }
}

impl ModuleMapper for IdentityMapper {
    open spec fn mapped(s: (), id: ParamId, kind: TensorKind, t: TensorView) -> TensorView {
        t
    }

    open spec fn next(s: (), id: ParamId, kind: TensorKind, t: TensorView) -> () {
        ()
    }

    fn map_float(&mut self, id: &ParamId, t: TensorData) -> (r: TensorData) {
        t
    }

    fn map_int(&mut self, id: &ParamId, t: TensorData) -> (r: TensorData) {
        t
    }

    fn map_bool(&mut self, id: &ParamId, t: TensorData) -> (r: TensorData) {
        t
    }
}

} // verus!
