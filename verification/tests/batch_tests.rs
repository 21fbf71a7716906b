use x_pixiv::batch::{label_of, DownloadBatch, ImageFailure, Slot};
use x_pixiv::data::ArtworksData;
use x_pixiv::destination::Grouping;
use x_pixiv::registry::ProgressRegistry;
use x_pixiv::transfer::TransferError;

fn artwork(n: usize) -> ArtworksData {
    ArtworksData {
        images: (0..n).map(|i| format!("https://i.example/img/9_p{}.png", i)).collect(),
        title: "T".to_string(),
        description: "d".to_string(),
        user_name: "A".to_string(),
    }
}

#[test]
fn label_of_joins_title_and_index() {
    assert_eq!(label_of("Sky", 0), "Sky-0");
    assert_eq!(label_of("Sky", 31), "Sky-31");
}

#[test]
fn open_batch_plans_one_task_for_each_image() {
    let mut registry = ProgressRegistry::new();
    let meta = artwork(3);
    let batch = DownloadBatch::open(&meta, 9, "/out", Grouping::ByAuthor, false, &mut registry);
    assert_eq!(batch.len(), 3);
    for i in 0..3 {
        let task = batch.task(i);
        assert_eq!(task.source_url, meta.images[i]);
        assert_eq!(task.destination_path, format!("/out/A/T-{}.png", i));
        assert_eq!(task.label, format!("T-{}", i));
        assert_eq!(batch.slot(i), Slot::Pending);
        let info = registry.get(task.id).unwrap();
        assert_eq!(info.title, task.label);
        assert_eq!(info.bytes_transferred, 0);
    }
    assert_eq!(registry.len(), 3);
    assert!(!batch.is_complete());
    assert!(batch.result().is_none());
}

#[test]
fn open_batch_names_files_with_the_artwork_id() {
    let mut registry = ProgressRegistry::new();
    let meta = artwork(2);
    let batch = DownloadBatch::open(&meta, 9, "out", Grouping::ByArtwork, true, &mut registry);
    assert_eq!(batch.task(0).destination_path, "out/T-9/T-9-0.png");
    assert_eq!(batch.task(1).destination_path, "out/T-9/T-9-1.png");
}

#[test]
fn open_batch_gives_every_task_an_id_of_its_own() {
    let mut registry = ProgressRegistry::new();
    registry.insert(0, "other".to_string()).unwrap();
    let batch = DownloadBatch::open(&artwork(8), 9, "/out", Grouping::Flat, false, &mut registry);
    let mut ids: Vec<u128> = (0..8).map(|i| batch.task(i).id).collect();
    ids.sort();
    ids.dedup();
    assert_eq!(ids.len(), 8);
    assert!(!ids.contains(&0));
    assert_eq!(registry.len(), 9);
    assert_eq!(registry.get(0).unwrap().title, "other");
}

#[test]
fn completed_batch_leaves_the_registry_empty() {
    let mut registry = ProgressRegistry::new();
    let mut batch = DownloadBatch::open(&artwork(4), 9, "/out", Grouping::Flat, false, &mut registry);
    assert_eq!(registry.len(), 4);
    for i in [2usize, 0, 3, 1] {
        assert!(batch.settle(i, Ok(()), &mut registry));
    }
    assert!(batch.is_complete());
    assert!(registry.is_empty());
    assert!(matches!(batch.result(), Some(Ok(()))));
}

#[test]
fn batch_of_an_artwork_without_images_is_complete() {
    let mut registry = ProgressRegistry::new();
    let batch = DownloadBatch::open(&artwork(0), 9, "/out", Grouping::Flat, false, &mut registry);
    assert_eq!(batch.len(), 0);
    assert!(batch.is_complete());
    assert!(matches!(batch.result(), Some(Ok(()))));
    assert!(registry.is_empty());
}

#[test]
fn failed_transfer_does_not_stop_its_siblings() {
    let mut registry = ProgressRegistry::new();
    let mut batch = DownloadBatch::open(&artwork(3), 9, "/out", Grouping::Flat, false, &mut registry);
    assert!(batch.settle(1, Err(TransferError::RemoteError(404)), &mut registry));
    assert_eq!(batch.slot(0), Slot::Pending);
    assert_eq!(batch.slot(1), Slot::Failed(TransferError::RemoteError(404)));
    assert_eq!(batch.slot(2), Slot::Pending);
    assert!(!batch.is_complete());
    assert!(batch.result().is_none());
    assert_eq!(registry.len(), 2);
    assert!(batch.settle(0, Ok(()), &mut registry));
    assert!(batch.settle(2, Ok(()), &mut registry));
    assert_eq!(batch.slot(0), Slot::Succeeded);
    assert_eq!(batch.slot(2), Slot::Succeeded);
    match batch.result() {
        Some(Err(e)) => {
            assert_eq!(
                e.failures,
                vec![ImageFailure { index: 1, error: TransferError::RemoteError(404) }]
            );
        }
        _ => panic!("the batch reports its failure"),
    }
    assert!(registry.is_empty());
}

#[test]
fn batch_lists_every_failure_by_index() {
    let mut registry = ProgressRegistry::new();
    let mut batch = DownloadBatch::open(&artwork(4), 9, "/out", Grouping::Flat, false, &mut registry);
    batch.settle(3, Err(TransferError::IoError), &mut registry);
    batch.settle(0, Err(TransferError::NetworkError), &mut registry);
    batch.settle(1, Ok(()), &mut registry);
    batch.settle(2, Err(TransferError::RemoteError(500)), &mut registry);
    match batch.result() {
        Some(Err(e)) => assert_eq!(
            e.failures,
            vec![
                ImageFailure { index: 0, error: TransferError::NetworkError },
                ImageFailure { index: 2, error: TransferError::RemoteError(500) },
                ImageFailure { index: 3, error: TransferError::IoError },
            ]
        ),
        _ => panic!("the batch reports its failures"),
    }
}

#[test]
fn settle_takes_each_transfer_once() {
    let mut registry = ProgressRegistry::new();
    let mut batch = DownloadBatch::open(&artwork(2), 9, "/out", Grouping::Flat, false, &mut registry);
    assert!(batch.settle(0, Ok(()), &mut registry));
    assert!(!batch.settle(0, Err(TransferError::IoError), &mut registry));
    assert_eq!(batch.slot(0), Slot::Succeeded);
    assert!(!batch.settle(2, Ok(()), &mut registry));
    assert_eq!(registry.len(), 1);
}

#[test]
fn settle_leaves_entries_of_other_batches() {
    let mut registry = ProgressRegistry::new();
    let mut first = DownloadBatch::open(&artwork(2), 1, "/out", Grouping::Flat, false, &mut registry);
    let second = DownloadBatch::open(&artwork(2), 2, "/out", Grouping::Flat, false, &mut registry);
    first.settle(0, Ok(()), &mut registry);
    first.settle(1, Ok(()), &mut registry);
    assert_eq!(registry.len(), 2);
    assert!(registry.contains(second.task(0).id));
    assert!(registry.contains(second.task(1).id));
}
