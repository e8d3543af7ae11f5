use frename::comment_loading::{CommentLoading, LoadedBatch, COMMENT_BATCH};

#[test]
fn comments_load_in_batches_of_the_files_still_loading() {
    let mut loading = CommentLoading::new();
    loading.start();
    let ids: Vec<u64> = (0..40).collect();
    let (generation, batch) = loading.next_batch(&ids).expect("a batch");
    assert_eq!(generation, 1);
    assert_eq!(batch.len(), COMMENT_BATCH);
    assert_eq!(batch, (0..32).collect::<Vec<u64>>());
    let (_, rest) = loading.next_batch(&ids[32..]).expect("the rest");
    assert_eq!(rest, (32..40).collect::<Vec<u64>>());
    assert_eq!(loading.next_batch(&[]), None);
}

#[test]
fn a_batch_of_another_folder_is_dropped() {
    let mut loading = CommentLoading::new();
    loading.start();
    let (old, _) = loading.next_batch(&[1, 2]).unwrap();
    loading.start();
    assert_eq!(loading.batch_loaded(old, 2, false), LoadedBatch::Drop);
    assert_eq!(loading.batch_loaded(old + 1, 2, false), LoadedBatch::Apply { load_more: true });
    assert_eq!(loading.batch_loaded(old + 1, 0, false), LoadedBatch::Drop, "nothing came back");
}

#[test]
fn a_running_job_pauses_the_loading() {
    let mut loading = CommentLoading::new();
    loading.start();
    assert_eq!(loading.batch_loaded(1, 5, true), LoadedBatch::Apply { load_more: false });
}
