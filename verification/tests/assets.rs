use andromeda::assets::handle::Handle;
use andromeda::assets::storage::{AssetContainer, AssetRef, PollResult};
use andromeda::assets::terrain::{terrain_indices, Terrain};

struct MyAsset {
    data: String,
}

fn load_my_asset(info: String) -> anyhow::Result<MyAsset> {
    if info == "fail" {
        return Err(anyhow::Error::msg("invalid load info"));
    } else {
        Ok(MyAsset { data: info })
    }
}

#[test]
fn test_load_success() {
    let mut assets: AssetContainer<MyAsset> = AssetContainer::new();
    let handle = assets.insert_pending();
    assets.resolve(handle, load_my_asset("success".to_owned()));
    // Should be successful now
    assert!(assets.is_ready(handle));
}

#[test]
fn test_load_fail() {
    let mut assets: AssetContainer<MyAsset> = AssetContainer::new();
    let handle = assets.insert_pending();
    assets.resolve(handle, load_my_asset("fail".to_owned()));
    // Should have failed by now
    assert!(assets.with_if_ready(handle, |_| {}).is_none());
}

#[test]
fn pending_asset_is_not_ready() {
    let mut assets: AssetContainer<u32> = AssetContainer::new();
    let handle = assets.insert_pending();
    assert!(!assets.is_ready(handle));
    assert_eq!(assets.poll(handle), PollResult::Pending);
    assert!(matches!(assets.get(handle), Some(AssetRef::Pending)));
    assert_eq!(assets.with_if_ready(handle, |v| *v), None);
    assert_eq!(assets.len(), 1);
}

#[test]
fn ready_asset_is_the_loaded_value() {
    let mut assets: AssetContainer<u32> = AssetContainer::new();
    let handle = assets.insert_pending();
    assets.resolve(handle, Ok(42));
    assert!(assets.is_ready(handle));
    assert_eq!(assets.poll(handle), PollResult::Ready);
    assert_eq!(assets.with_if_ready(handle, |v| *v + 1), Some(43));
    assert_eq!(
        assets.with(handle, |r| match r {
            AssetRef::Ready(v) => *v,
            _ => 0,
        }),
        Some(42)
    );
}

#[test]
fn failed_asset_keeps_its_error() {
    let mut assets: AssetContainer<u32> = AssetContainer::new();
    let handle = assets.insert_pending();
    assets.resolve(handle, Err(anyhow::Error::msg("broken file")));
    assert_eq!(assets.poll(handle), PollResult::Failed);
    match assets.get(handle) {
        Some(AssetRef::Failed(err)) => assert_eq!(err.to_string(), "broken file"),
        _ => panic!("expected a failed entry"),
    }
}

#[test]
fn handles_are_distinct() {
    let mut assets: AssetContainer<u32> = AssetContainer::new();
    let a = assets.insert_pending();
    let b = assets.insert_pending();
    assert!(a != b);
    assert_ne!(a.key_code(), b.key_code());
    assets.resolve(a, Ok(1));
    assert!(assets.is_ready(a));
    assert!(!assets.is_ready(b));
}

#[test]
fn deleted_asset_is_gone() {
    let mut assets: AssetContainer<u32> = AssetContainer::new();
    let a = assets.insert_pending();
    let b = assets.insert_pending();
    assets.resolve(a, Ok(1));
    assets.resolve(b, Ok(2));
    assets.delete_asset(a);
    assert!(assets.get(a).is_none());
    assert_eq!(assets.poll(a), PollResult::Failed);
    assert_eq!(assets.with_if_ready(b, |v| *v), Some(2));
    assert_eq!(assets.len(), 1);
    // A new asset does not take over the deleted handle.
    let c = assets.insert_pending();
    assert!(c != a);
    assert!(assets.get(a).is_none());
}

#[test]
fn clear_failed_assets_removes_only_failures() {
    let mut assets: AssetContainer<u32> = AssetContainer::new();
    let ok = assets.insert_pending();
    let bad = assets.insert_pending();
    let waiting = assets.insert_pending();
    assets.resolve(ok, Ok(7));
    assets.resolve(bad, Err(anyhow::Error::msg("no")));
    assets.clear_failed_assets();
    assert_eq!(assets.len(), 2);
    assert!(assets.get(bad).is_none());
    assert!(assets.is_ready(ok));
    assert_eq!(assets.poll(waiting), PollResult::Pending);
    // The removed key is no longer live in the slot map either: a later load
    // gets a handle different from all earlier ones.
    let again = assets.insert_pending();
    assert!(again != ok && again != bad && again != waiting);
    assert_eq!(assets.len(), 3);
}

#[test]
fn null_handle_refers_to_nothing() {
    let mut assets: AssetContainer<u32> = AssetContainer::new();
    let h = assets.insert_pending();
    let null: Handle<u32> = Handle::default();
    assert!(assets.get(null).is_none());
    assert!(null != h);
    assert_eq!(null.key_code(), 0x1_FFFF_FFFF);
}

#[test]
fn terrain_with_if_ready_needs_all_four() {
    let mut heights: AssetContainer<u8> = AssetContainer::new();
    let mut normals: AssetContainer<u16> = AssetContainer::new();
    let mut diffuse: AssetContainer<u32> = AssetContainer::new();
    let mut meshes: AssetContainer<u64> = AssetContainer::new();
    let terrain = Terrain {
        height_map: heights.insert_pending(),
        normal_map: normals.insert_pending(),
        diffuse_map: diffuse.insert_pending(),
        mesh: meshes.insert_pending(),
    };
    heights.resolve(terrain.height_map, Ok(1));
    normals.resolve(terrain.normal_map, Ok(2));
    diffuse.resolve(terrain.diffuse_map, Ok(3));
    let sum = |h: &u8, n: &u16, d: &u32, m: &u64| *h as u64 + *n as u64 + *d as u64 + *m;
    assert_eq!(terrain.with_if_ready(&heights, &normals, &diffuse, &meshes, sum), None);
    meshes.resolve(terrain.mesh, Ok(4));
    assert_eq!(terrain.with_if_ready(&heights, &normals, &diffuse, &meshes, sum), Some(10));
}

#[test]
fn terrain_indices_of_three_by_three_grid() {
    let indices = terrain_indices(3);
    assert_eq!(indices.len(), 2 * 2 * 4);
    assert_eq!(
        indices,
        vec![0, 3, 4, 1, 3, 6, 7, 4, 1, 4, 5, 2, 4, 7, 8, 5]
    );
    assert!(indices.iter().all(|&i| i < 9));
}

#[test]
fn terrain_indices_of_single_vertex_is_empty() {
    assert!(terrain_indices(1).is_empty());
    assert_eq!(terrain_indices(2), vec![0, 2, 3, 1]);
}

#[test]
fn record_loads_records_each_result() {
    let mut assets: AssetContainer<u32> = AssetContainer::new();
    let kept = assets.insert_pending();
    let failed = assets.insert_pending();
    let waiting = assets.insert_pending();
    assets.record_loads(vec![(kept, Ok(7)), (failed, Err(anyhow::Error::msg("broken")))]);
    assert_eq!(assets.with_if_ready(kept, |v| *v), Some(7));
    assert_eq!(assets.poll(failed), PollResult::Failed);
    assert!(matches!(assets.get(failed), Some(AssetRef::Failed(_))));
    assert_eq!(assets.poll(waiting), PollResult::Pending);
    assert_eq!(assets.len(), 3);
}

#[test]
fn deleted_handle_is_not_handed_out_again() {
    let mut assets: AssetContainer<u32> = AssetContainer::new();
    let first = assets.insert_pending();
    assets.delete_asset(first);
    let second = assets.insert_pending();
    assert!(second != first);
    assets.delete_asset(second);
    let third = assets.insert_pending();
    assert!(third != first && third != second);
    assert_eq!(assets.poll(first), PollResult::Failed);
    assert_eq!(assets.len(), 1);
}

#[test]
fn record_loads_later_result_wins() {
    let mut assets: AssetContainer<u32> = AssetContainer::new();
    let handle = assets.insert_pending();
    assets.record_loads(vec![(handle, Ok(1)), (handle, Ok(2))]);
    assert_eq!(assets.with_if_ready(handle, |v| *v), Some(2));
}
