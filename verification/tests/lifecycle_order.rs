use vkboot::error::LifecycleError;
use vkboot::lifecycle::{creation_order, teardown_order, HandleKind, PerImageResources};

fn count(kinds: &[HandleKind], k: HandleKind) -> usize {
    kinds.iter().filter(|x| **x == k).count()
}

const ALL_KINDS: [HandleKind; 12] = [
    HandleKind::Instance,
    HandleKind::DebugMessenger,
    HandleKind::Surface,
    HandleKind::Device,
    HandleKind::Swapchain,
    HandleKind::ImageView,
    HandleKind::RenderPass,
    HandleKind::PipelineLayout,
    HandleKind::Pipeline,
    HandleKind::Framebuffer,
    HandleKind::CommandPool,
    HandleKind::Semaphore,
];

#[test]
fn creation_order_with_validation() {
    let order = creation_order(2, true);
    let expected = vec![
        HandleKind::Instance,
        HandleKind::DebugMessenger,
        HandleKind::Surface,
        HandleKind::Device,
        HandleKind::Swapchain,
        HandleKind::ImageView,
        HandleKind::ImageView,
        HandleKind::RenderPass,
        HandleKind::PipelineLayout,
        HandleKind::Pipeline,
        HandleKind::Framebuffer,
        HandleKind::Framebuffer,
        HandleKind::CommandPool,
        HandleKind::Semaphore,
        HandleKind::Semaphore,
    ];
    assert_eq!(order, expected);
}

#[test]
fn creation_order_without_validation_has_no_messenger() {
    let order = creation_order(1, false);
    assert_eq!(count(&order, HandleKind::DebugMessenger), 0);
    assert_eq!(order[0], HandleKind::Instance);
}

#[test]
fn teardown_is_exact_reverse_of_creation() {
    let created = creation_order(3, true);
    let destroyed = teardown_order(&created);
    let mut expected = created.clone();
    expected.reverse();
    assert_eq!(destroyed, expected);
}

#[test]
fn teardown_starts_with_sync_primitives_and_ends_with_instance() {
    let created = creation_order(3, true);
    let destroyed = teardown_order(&created);
    assert_eq!(destroyed[0], HandleKind::Semaphore);
    assert_eq!(destroyed[1], HandleKind::Semaphore);
    assert_eq!(destroyed[2], HandleKind::CommandPool);
    assert_eq!(destroyed[destroyed.len() - 1], HandleKind::Instance);
    assert_eq!(destroyed[destroyed.len() - 2], HandleKind::DebugMessenger);
}

#[test]
fn destroy_counts_balance_create_counts() {
    let created = creation_order(4, true);
    let destroyed = teardown_order(&created);
    for k in ALL_KINDS {
        assert_eq!(count(&created, k), count(&destroyed, k));
    }
    assert_eq!(count(&created, HandleKind::ImageView), 4);
    assert_eq!(count(&created, HandleKind::Framebuffer), 4);
    assert_eq!(count(&created, HandleKind::Semaphore), 2);
}

#[test]
fn aligned_collections_are_accepted() {
    let r = PerImageResources::assemble(2, vec![10, 11], vec![20, 21], vec![30, 31]).unwrap();
    assert_eq!(r.image_count(), 2);
    assert_eq!(r.image_view(0), 10);
    assert_eq!(r.framebuffer(1), 21);
    assert_eq!(r.command_buffer(0), 30);
}

#[test]
fn misaligned_collections_are_a_fatal_configuration_error() {
    let r = PerImageResources::assemble(2, vec![10, 11], vec![20], vec![30, 31]);
    assert!(matches!(r, Err(LifecycleError::IndexMisalignment)));
    let r = PerImageResources::assemble(3, vec![10, 11], vec![20, 21], vec![30, 31]);
    assert!(matches!(r, Err(LifecycleError::IndexMisalignment)));
    let r = PerImageResources::assemble(2, vec![10, 11], vec![20, 21], vec![30]);
    assert!(matches!(r, Err(LifecycleError::IndexMisalignment)));
}
