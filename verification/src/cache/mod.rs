pub mod task_cache;
