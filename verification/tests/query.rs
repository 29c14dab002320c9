use task_tracker::mapper::{
    TaskFilterAndSortFiltersMapper, TaskFilterAndSortMapper, TaskFilterAndSortSortDirectionMapper,
    TaskFilterAndSortSortFieldMapper, TaskFilterAndSortSortMapper, TaskMapper,
};
use task_tracker::query::{
    TaskFilterAndSortDto, TaskFilterAndSortFiltersDto, TaskFilterAndSortSortDirectionDto,
    TaskFilterAndSortSortDto, TaskFilterAndSortSortFieldDto,
};
use task_tracker::repository::TaskRepository;
use task_tracker::task::Task;
use task_tracker::text::{chars_contain, chars_lex_le, chars_of, title_matches};

fn no_filters() -> TaskFilterAndSortFiltersDto {
    TaskFilterAndSortFiltersDto {
        done: None,
        title: None,
        created_after: None,
        created_before: None,
        updated_after: None,
        updated_before: None,
    }
}

fn unsorted(filters: TaskFilterAndSortFiltersDto) -> TaskFilterAndSortDto {
    TaskFilterAndSortDto {
        filters: Some(filters),
        sort: None,
    }
}

fn sorted_by(
    field: TaskFilterAndSortSortFieldDto,
    direction: Option<TaskFilterAndSortSortDirectionDto>,
) -> TaskFilterAndSortDto {
    TaskFilterAndSortDto {
        filters: None,
        sort: Some(TaskFilterAndSortSortDto {
            field: Some(field),
            direction,
        }),
    }
}

fn store_with(entries: &[(&str, bool, i64)]) -> TaskRepository {
    let mut repo = TaskRepository::new();
    for (title, done, now) in entries {
        let mut task = Task::new_unsaved(title.to_string());
        task.done = *done;
        repo.save(task, *now).unwrap();
    }
    repo
}

fn titles(tasks: &[Task]) -> Vec<String> {
    tasks.iter().map(|t| t.title.clone()).collect()
}

#[test]
fn query_without_specification_returns_all_in_store_order() {
    let repo = store_with(&[("a", false, 1), ("b", true, 2), ("c", false, 3)]);
    let q = TaskFilterAndSortDto {
        filters: None,
        sort: None,
    };
    let r = repo.find_tasks(&q);
    assert_eq!(titles(&r), vec!["a", "b", "c"]);
}

#[test]
fn query_done_true_returns_exactly_the_done_subset() {
    let repo = store_with(&[("a", false, 1), ("b", true, 2), ("c", false, 3), ("d", true, 4)]);
    let mut f = no_filters();
    f.done = Some(true);
    let r = repo.find_tasks(&unsorted(f));
    assert_eq!(titles(&r), vec!["b", "d"]);
    assert!(r.iter().all(|t| t.done));
}

#[test]
fn query_done_false_returns_the_open_subset() {
    let repo = store_with(&[("a", false, 1), ("b", true, 2), ("c", false, 3)]);
    let mut f = no_filters();
    f.done = Some(false);
    let r = repo.find_tasks(&unsorted(f));
    assert_eq!(titles(&r), vec!["a", "c"]);
}

#[test]
fn title_filter_is_a_case_insensitive_substring_match() {
    let repo = store_with(&[
        ("Foo bar", false, 1),
        ("xfoox", false, 2),
        ("FOO", false, 3),
        ("bar", false, 4),
    ]);
    let mut f = no_filters();
    f.title = Some("foo".to_string());
    let r = repo.find_tasks(&unsorted(f));
    assert_eq!(titles(&r), vec!["Foo bar", "xfoox", "FOO"]);
}

#[test]
fn title_matches_folds_case_on_both_sides() {
    assert!(title_matches("Foo bar", "foo"));
    assert!(title_matches("xfoox", "foo"));
    assert!(title_matches("FOO", "foo"));
    assert!(!title_matches("bar", "foo"));
    assert!(title_matches("bar", "AR"));
    assert!(title_matches("anything", ""));
}

#[test]
fn timestamp_filters_are_strict_bounds() {
    let repo = store_with(&[("a", false, 100), ("b", false, 200), ("c", false, 300)]);
    let mut after = no_filters();
    after.created_after = Some(100);
    assert_eq!(titles(&repo.find_tasks(&unsorted(after))), vec!["b", "c"]);
    let mut before = no_filters();
    before.created_before = Some(300);
    assert_eq!(titles(&repo.find_tasks(&unsorted(before))), vec!["a", "b"]);
    let mut upd = no_filters();
    upd.updated_after = Some(200);
    assert_eq!(titles(&repo.find_tasks(&unsorted(upd))), vec!["c"]);
    let mut updb = no_filters();
    updb.updated_before = Some(200);
    assert_eq!(titles(&repo.find_tasks(&unsorted(updb))), vec!["a"]);
}

#[test]
fn filters_combine_as_a_conjunction() {
    let repo = store_with(&[
        ("alpha", true, 100),
        ("beta", true, 200),
        ("alphabet", false, 300),
    ]);
    let mut f = no_filters();
    f.done = Some(true);
    f.title = Some("alpha".to_string());
    let r = repo.find_tasks(&unsorted(f));
    assert_eq!(titles(&r), vec!["alpha"]);
}

#[test]
fn sort_by_title_ascending_is_non_decreasing() {
    let repo = store_with(&[("banana", false, 1), ("apple", false, 2), ("cherry", false, 3)]);
    let q = sorted_by(
        TaskFilterAndSortSortFieldDto::Title,
        Some(TaskFilterAndSortSortDirectionDto::Asc),
    );
    let r = repo.find_tasks(&q);
    assert_eq!(titles(&r), vec!["apple", "banana", "cherry"]);
}

#[test]
fn sort_direction_defaults_to_descending() {
    let repo = store_with(&[("banana", false, 1), ("apple", false, 2), ("cherry", false, 3)]);
    let q = sorted_by(TaskFilterAndSortSortFieldDto::Title, None);
    let r = repo.find_tasks(&q);
    assert_eq!(titles(&r), vec!["cherry", "banana", "apple"]);
}

#[test]
fn sort_by_created_at_both_directions() {
    let repo = store_with(&[("late", false, 300), ("early", false, 100), ("mid", false, 200)]);
    let asc = repo.find_tasks(&sorted_by(
        TaskFilterAndSortSortFieldDto::CreatedAt,
        Some(TaskFilterAndSortSortDirectionDto::Asc),
    ));
    assert_eq!(titles(&asc), vec!["early", "mid", "late"]);
    let desc = repo.find_tasks(&sorted_by(
        TaskFilterAndSortSortFieldDto::CreatedAt,
        Some(TaskFilterAndSortSortDirectionDto::Desc),
    ));
    assert_eq!(titles(&desc), vec!["late", "mid", "early"]);
}

#[test]
fn sort_by_done_ascending_puts_open_tasks_first() {
    let repo = store_with(&[("b-done", true, 1), ("a-open", false, 2), ("c-done", true, 3)]);
    let r = repo.find_tasks(&sorted_by(
        TaskFilterAndSortSortFieldDto::Done,
        Some(TaskFilterAndSortSortDirectionDto::Asc),
    ));
    assert!(!r[0].done);
    assert!(r[1].done && r[2].done);
}

#[test]
fn sort_without_field_leaves_store_order() {
    let repo = store_with(&[("b", false, 1), ("a", false, 2)]);
    let q = TaskFilterAndSortDto {
        filters: None,
        sort: Some(TaskFilterAndSortSortDto {
            field: None,
            direction: Some(TaskFilterAndSortSortDirectionDto::Asc),
        }),
    };
    assert_eq!(titles(&repo.find_tasks(&q)), vec!["b", "a"]);
}

#[test]
fn filter_and_sort_compose() {
    let repo = store_with(&[
        ("banana", true, 1),
        ("apple", false, 2),
        ("cherry", true, 3),
        ("almond", true, 4),
    ]);
    let mut f = no_filters();
    f.done = Some(true);
    let q = TaskFilterAndSortDto {
        filters: Some(f),
        sort: Some(TaskFilterAndSortSortDto {
            field: Some(TaskFilterAndSortSortFieldDto::Title),
            direction: Some(TaskFilterAndSortSortDirectionDto::Asc),
        }),
    };
    assert_eq!(titles(&repo.find_tasks(&q)), vec!["almond", "banana", "cherry"]);
}

#[test]
fn chars_utilities_match_their_specifications() {
    let hay = chars_of("hello world");
    let needle = chars_of("lo w");
    assert!(chars_contain(&hay, &needle));
    let absent = chars_of("low");
    assert!(!chars_contain(&hay, &absent));
    let a = chars_of("abc");
    let b = chars_of("abd");
    assert!(chars_lex_le(&a, &b));
    assert!(!chars_lex_le(&b, &a));
    let prefix = chars_of("ab");
    assert!(chars_lex_le(&prefix, &a));
}

#[test]
fn task_mapper_projects_and_rebuilds() {
    let task = Task {
        id: 9,
        title: "t".to_string(),
        done: true,
        created_at: 5,
        updated_at: 6,
    };
    let m = TaskMapper::from_task(task);
    assert_eq!(m.id, 9);
    assert_eq!(m.title, "t");
    assert!(m.done);
    let back = m.into_task();
    assert_eq!(back.id, 9);
    assert_eq!(back.title, "t");
    assert!(back.done);
    assert_eq!(back.created_at, 0);
    assert_eq!(back.updated_at, 0);
}

#[test]
fn filter_and_sort_mapper_converts_to_the_dto() {
    let mapper = TaskFilterAndSortMapper {
        filters: Some(TaskFilterAndSortFiltersMapper {
            done: Some(true),
            title: Some("foo".to_string()),
            created_after: Some(1),
            created_before: Some(2),
            updated_after: Some(3),
            updated_before: Some(4),
        }),
        sort: Some(TaskFilterAndSortSortMapper {
            field: Some(TaskFilterAndSortSortFieldMapper::Title),
            direction: Some(TaskFilterAndSortSortDirectionMapper::Asc),
        }),
    };
    let dto = mapper.into_dto();
    let f = dto.filters.unwrap();
    assert_eq!(f.done, Some(true));
    assert_eq!(f.title, Some("foo".to_string()));
    assert_eq!(f.created_after, Some(1));
    assert_eq!(f.created_before, Some(2));
    assert_eq!(f.updated_after, Some(3));
    assert_eq!(f.updated_before, Some(4));
    let s = dto.sort.unwrap();
    assert_eq!(s.field, Some(TaskFilterAndSortSortFieldDto::Title));
    assert_eq!(s.direction, Some(TaskFilterAndSortSortDirectionDto::Asc));
}

#[test]
fn empty_mapper_converts_to_the_empty_dto() {
    let mapper = TaskFilterAndSortMapper {
        filters: None,
        sort: None,
    };
    let dto = mapper.into_dto();
    assert!(dto.filters.is_none());
    assert!(dto.sort.is_none());
}
