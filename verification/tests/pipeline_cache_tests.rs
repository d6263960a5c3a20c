use ash::vk;
use rotorlab::render::pipeline_cache::{PipelineCache, PipelineId};
use rotorlab::render::Pipeline;
use rotorlab::RenderError;
use std::sync::atomic::{AtomicUsize, Ordering};
use std::sync::Arc;

/// Trivial Vulkan-free pipeline used by the cache tests.
struct FakePipeline {
    #[allow(dead_code)]
    marker: usize,
}

impl Pipeline for FakePipeline {
    fn raw(&self) -> vk::Pipeline {
        vk::Pipeline::null()
    }
    fn layout(&self) -> vk::PipelineLayout {
        vk::PipelineLayout::null()
    }
}

#[test]
fn cache_populates_lazily() {
    let mut cache = PipelineCache::new();
    let calls = AtomicUsize::new(0);
    let factory = || {
        calls.fetch_add(1, Ordering::SeqCst);
        Ok(Arc::new(FakePipeline { marker: 1 }) as Arc<dyn Pipeline>)
    };
    let _p1 = cache.get_or_create(PipelineId::Point, factory).unwrap();
    let factory2 = || {
        calls.fetch_add(1, Ordering::SeqCst);
        Ok(Arc::new(FakePipeline { marker: 2 }) as Arc<dyn Pipeline>)
    };
    let _p2 = cache.get_or_create(PipelineId::Point, factory2).unwrap();
    assert_eq!(calls.load(Ordering::SeqCst), 1);
}

#[test]
fn second_lookup_returns_same_handle() {
    let mut cache = PipelineCache::new();
    let p1 = cache
        .get_or_create(PipelineId::Line, || {
            Ok(Arc::new(FakePipeline { marker: 42 }) as Arc<dyn Pipeline>)
        })
        .unwrap();
    let p2 = cache
        .get_or_create(PipelineId::Line, || {
            unreachable!("factory must not be called for cached id");
        })
        .unwrap();
    assert!(Arc::ptr_eq(&p1, &p2));
}

#[test]
fn drop_order_is_correct() {
    struct CountingPipeline {
        dropper: Arc<AtomicUsize>,
    }
    impl Pipeline for CountingPipeline {
        fn raw(&self) -> vk::Pipeline {
            vk::Pipeline::null()
        }
        fn layout(&self) -> vk::PipelineLayout {
            vk::PipelineLayout::null()
        }
    }
    impl Drop for CountingPipeline {
        fn drop(&mut self) {
            self.dropper.fetch_add(1, Ordering::SeqCst);
        }
    }

    let counter = Arc::new(AtomicUsize::new(0));
    let mut cache = PipelineCache::new();
    let p1 = cache
        .get_or_create(PipelineId::Point, {
            let c = counter.clone();
            move || Ok(Arc::new(CountingPipeline { dropper: c }) as Arc<dyn Pipeline>)
        })
        .unwrap();
    let p2 = cache
        .get_or_create(PipelineId::Line, {
            let c = counter.clone();
            move || Ok(Arc::new(CountingPipeline { dropper: c }) as Arc<dyn Pipeline>)
        })
        .unwrap();
    drop(p1);
    drop(p2);
    drop(cache);
    assert_eq!(counter.load(Ordering::SeqCst), 2);
}

#[test]
fn failed_factory_is_not_cached_and_is_retried() {
    let mut cache: PipelineCache = PipelineCache::default();
    let first = cache.get_or_create(PipelineId::Point, || {
        Err(RenderError::Shader("boom".to_string()))
    });
    assert!(matches!(first, Err(RenderError::Shader(_))));
    let calls = AtomicUsize::new(0);
    let second = cache.get_or_create(PipelineId::Point, || {
        calls.fetch_add(1, Ordering::SeqCst);
        Ok(Arc::new(FakePipeline { marker: 7 }) as Arc<dyn Pipeline>)
    });
    assert!(second.is_ok());
    assert_eq!(calls.load(Ordering::SeqCst), 1);
}

#[test]
fn ids_have_separate_slots() {
    let mut cache = PipelineCache::new();
    let point = cache
        .get_or_create(PipelineId::Point, || {
            Ok(Arc::new(FakePipeline { marker: 1 }) as Arc<dyn Pipeline>)
        })
        .unwrap();
    let line = cache
        .get_or_create(PipelineId::Line, || {
            Ok(Arc::new(FakePipeline { marker: 2 }) as Arc<dyn Pipeline>)
        })
        .unwrap();
    assert!(!Arc::ptr_eq(&point, &line));
}
