//! Cache of compiled pipelines keyed by drawable kind.

use vstd::prelude::*;
use std::sync::Arc;
use crate::error::RenderError;
use crate::render::pipelines::Pipeline;

verus! {

/// Identifier for a cached pipeline.
#[derive(Copy, Clone, Debug, PartialEq, Eq, Hash, Structural)]
pub enum PipelineId {
    /// Pipeline used by drawables that render points.
    Point,
    /// Pipeline used by drawables that render thick lines.
    Line,
}

/// `Arc::clone`: the new handle points at the same pipeline.
#[verifier::external_body]
fn share<P: ?Sized>(p: &Arc<P>) -> (r: Arc<P>)
    ensures
        r == *p,
{
    p.clone()
}

/// Cache of GPU pipelines, looked up by drawable kind: at most one pipeline
/// per [`PipelineId`].
pub struct PipelineCache<P: ?Sized + Pipeline = dyn Pipeline> {
    point: Option<Arc<P>>,
    line: Option<Arc<P>>,
}

impl<P: ?Sized + Pipeline> PipelineCache<P> {
    /// The pipeline cached for `id`, if any.
    pub closed spec fn slot(&self, id: PipelineId) -> Option<Arc<P>> {
        match id {
            PipelineId::Point => self.point,
            PipelineId::Line => self.line,
        }
    }

    /// What one `get_or_create` call for `id` does to the cache `pre`,
    /// leaving it as `post` and returning `r`: a cached pipeline is returned
    /// with the cache unchanged; otherwise a created pipeline is cached
    /// under `id` and returned, a failure caches nothing, and the other
    /// slots stay as they were.
    pub open spec fn lookup_step(
        pre: Self,
        id: PipelineId,
        r: Result<Arc<P>, RenderError>,
        post: Self,
    ) -> bool {
        match pre.slot(id) {
            Some(p) => r matches Ok(q) && q == p && post == pre,
            None => {
                &&& match r {
                    Ok(p) => post.slot(id) == Some(p),
                    Err(_) => post.slot(id) is None,
                }
                &&& forall|other: PipelineId| other != id ==> post.slot(other) == pre.slot(other)
            },
        }
    }

    /// An empty cache.
    pub fn new() -> (c: Self)
        ensures
            forall|id: PipelineId| c.slot(id) is None,
    {
        PipelineCache { point: None, line: None }
    }

    /// Get or lazily build the pipeline keyed by `id`.
    ///
    /// When `id` is cached, its pipeline is returned and `factory` is not
    /// called. Otherwise `factory` is called once: on success its pipeline
    /// is cached under `id` and returned; on failure the error is returned
    /// and nothing is cached, so a later call retries.
    pub fn get_or_create<F>(&mut self, id: PipelineId, factory: F) -> (r: Result<
        Arc<P>,
        RenderError,
    >) where F: FnOnce() -> Result<Arc<P>, RenderError>
        requires
            old(self).slot(id) is None ==> factory.requires(()),
        ensures
            old(self).slot(id) is None ==> factory.ensures((), r),
            Self::lookup_step(*old(self), id, r, *final(self)),
    {
        let cached = match id {
            PipelineId::Point => &self.point,
            PipelineId::Line => &self.line,
        };
        if let Some(existing) = cached {
            return Ok(share(existing));
        }
        let built = factory()?;
        let kept = share(&built);
        match id {
            PipelineId::Point => self.point = Some(kept),
            PipelineId::Line => self.line = Some(kept),
        }
        Ok(built)
    }
}

impl<P: ?Sized + Pipeline> Default for PipelineCache<P> {
    fn default() -> (c: Self)
        ensures
            forall|id: PipelineId| c.slot(id) is None,
    {
        PipelineCache::new()
    }
}

/// Once a lookup for `id` has succeeded, a second lookup for `id` returns the
/// same pipeline (without building one) and leaves the cache as it was.
pub proof fn lemma_second_lookup_returns_same_pipeline<P: ?Sized + Pipeline>(
    c0: PipelineCache<P>,
    c1: PipelineCache<P>,
    c2: PipelineCache<P>,
    id: PipelineId,
    r1: Result<Arc<P>, RenderError>,
    r2: Result<Arc<P>, RenderError>,
)
    requires
        PipelineCache::lookup_step(c0, id, r1, c1),
        r1 is Ok,
        PipelineCache::lookup_step(c1, id, r2, c2),
    ensures
        r2 matches Ok(q) && r1 matches Ok(p) && q == p,
        c2 == c1,
        c1.slot(id) is Some,
{
}

/// A lookup that fails leaves `id` uncached, so a later lookup builds again.
pub proof fn lemma_failed_lookup_caches_nothing<P: ?Sized + Pipeline>(
    c0: PipelineCache<P>,
    c1: PipelineCache<P>,
    id: PipelineId,
    r: Result<Arc<P>, RenderError>,
)
    requires
        PipelineCache::lookup_step(c0, id, r, c1),
        r is Err,
    ensures
        c1.slot(id) is None,
        c0.slot(id) is None,
{
}

} // verus!
