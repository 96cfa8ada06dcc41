use tarrowyn_repository::lessons::{
    school_lesson_room, trim_school_lessons, SchoolLesson, MAX_SCHOOL_LESSONS,
};

fn lesson(index: u64) -> SchoolLesson<(String, String)> {
    SchoolLesson {
        lesson_id: format!("lesson-{index}"),
        started_tick: index,
        expires_tick: 200,
        details: (format!("learner-{index}"), "wind-magic".to_owned()),
    }
}

#[test]
fn school_lessons_keep_a_bounded_newest_active_window() {
    let mut lessons: Vec<SchoolLesson<(String, String)>> =
        (0..(MAX_SCHOOL_LESSONS as u64 + 3)).map(lesson).collect();

    trim_school_lessons(&mut lessons, 100);

    assert_eq!(lessons.len(), MAX_SCHOOL_LESSONS);
    assert_eq!(lessons.first().unwrap().lesson_id, "lesson-3");
    assert!(!school_lesson_room(&mut lessons, 100));
}

#[test]
fn expired_lessons_leave_room_and_the_window_is_ordered_by_start() {
    let mut lessons = vec![lesson(9), lesson(2), lesson(5)];
    lessons[1].expires_tick = 50;
    trim_school_lessons(&mut lessons, 100);
    let ids: Vec<&str> = lessons.iter().map(|l| l.lesson_id.as_str()).collect();
    assert_eq!(ids, vec!["lesson-5", "lesson-9"]);
    assert!(school_lesson_room(&mut lessons, 100));
}
