use plan_manager::prompt::decimal_string;
use plan_manager::{
    default_language, LoadOutcome, Plan, PlanBehavior, PlanError, PlanManager, ProjectInfo,
    Violation,
};
use tempfile::TempDir;

fn project(title: &str, description: &str, language: &str) -> ProjectInfo {
    ProjectInfo {
        title: title.to_string(),
        description: description.to_string(),
        language: language.to_string(),
    }
}

fn behavior(id: &str, name: &str, text: &str) -> PlanBehavior {
    PlanBehavior {
        id: id.to_string(),
        name: name.to_string(),
        behavior: text.to_string(),
    }
}

fn plan_of(behaviors: Vec<PlanBehavior>) -> Plan {
    Plan {
        project: project("Test Project", "A test project", "haskell"),
        behaviors,
    }
}

#[test]
fn test_plan_validation() {
    // Test valid plan
    let valid_plan = Plan {
        project: ProjectInfo {
            title: "Test Project".to_string(),
            description: "A test project".to_string(),
            language: "haskell".to_string(),
        },
        behaviors: vec![PlanBehavior {
            id: "test1".to_string(),
            name: "Test Behavior 1".to_string(),
            behavior: "This is a test behavior".to_string(),
        }],
    };
    assert!(PlanManager::validate_plan(&valid_plan).is_ok());

    // Test empty behaviors
    let empty_plan = Plan {
        project: ProjectInfo {
            title: "Test Project".to_string(),
            description: "A test project".to_string(),
            language: "haskell".to_string(),
        },
        behaviors: vec![],
    };
    assert!(PlanManager::validate_plan(&empty_plan).is_err());

    // Test duplicate IDs
    let duplicate_plan = Plan {
        project: ProjectInfo {
            title: "Test Project".to_string(),
            description: "A test project".to_string(),
            language: "haskell".to_string(),
        },
        behaviors: vec![
            PlanBehavior {
                id: "test1".to_string(),
                name: "Test Behavior 1".to_string(),
                behavior: "This is a test behavior".to_string(),
            },
            PlanBehavior {
                id: "test1".to_string(),
                name: "Test Behavior 2".to_string(),
                behavior: "This is another test behavior".to_string(),
            },
        ],
    };
    assert!(PlanManager::validate_plan(&duplicate_plan).is_err());

    // Test empty fields
    let empty_id_plan = Plan {
        project: ProjectInfo {
            title: "Test Project".to_string(),
            description: "A test project".to_string(),
            language: "haskell".to_string(),
        },
        behaviors: vec![PlanBehavior {
            id: "".to_string(),
            name: "Test Behavior".to_string(),
            behavior: "This is a test behavior".to_string(),
        }],
    };
    assert!(PlanManager::validate_plan(&empty_id_plan).is_err());
}

#[test]
fn test_system_prompt_generation() {
    let plan = Plan {
        project: ProjectInfo {
            title: "Test Project".to_string(),
            description: "A test application for demonstration".to_string(),
            language: "rust".to_string(),
        },
        behaviors: vec![PlanBehavior {
            id: "test1".to_string(),
            name: "Test Feature".to_string(),
            behavior: "Implement a test feature with proper error handling".to_string(),
        }],
    };

    let prompt = PlanManager::generate_system_prompt(&plan);
    assert!(prompt.contains("Test Project"));
    assert!(prompt.contains("rust"));
    assert!(prompt.contains("A test application for demonstration"));
    assert!(prompt.contains("Test Feature"));
    assert!(prompt.contains("test1"));
    assert!(prompt.contains("Implement a test feature"));
    assert!(prompt.contains("builder extension"));
}

#[test]
fn distinct_filled_behaviors_are_valid() {
    let plan = plan_of(vec![
        behavior("a", "A", "do a"),
        behavior("b", "B", "do b"),
        behavior("A", "C", "ids differ in case"),
    ]);
    assert_eq!(PlanManager::validate_plan(&plan), Ok(()));
}

#[test]
fn empty_list_is_reported_first() {
    assert_eq!(
        PlanManager::validate_plan(&plan_of(vec![])),
        Err(Violation::NoBehaviors)
    );
}

#[test]
fn duplicate_id_names_the_repeat() {
    let plan = plan_of(vec![
        behavior("x", "X", "one"),
        behavior("y", "Y", "two"),
        behavior("x", "Z", "three"),
    ]);
    assert_eq!(
        PlanManager::validate_plan(&plan),
        Err(Violation::DuplicateId { index: 2, id: "x".to_string() })
    );
}

#[test]
fn checks_run_in_order_within_a_behavior() {
    let both = plan_of(vec![behavior("", "", "")]);
    assert_eq!(
        PlanManager::validate_plan(&both),
        Err(Violation::EmptyId { index: 0 })
    );
    let name_and_text = plan_of(vec![behavior("a", "A", "t"), behavior("b", "", "")]);
    assert_eq!(
        PlanManager::validate_plan(&name_and_text),
        Err(Violation::EmptyName { index: 1 })
    );
    let text = plan_of(vec![behavior("a", "A", "")]);
    assert_eq!(
        PlanManager::validate_plan(&text),
        Err(Violation::EmptyInstructions { index: 0 })
    );
}

#[test]
fn earlier_behavior_wins_over_later_duplicate() {
    let plan = plan_of(vec![
        behavior("a", "A", "t"),
        behavior("b", "", "t"),
        behavior("a", "A again", "t"),
    ]);
    assert_eq!(
        PlanManager::validate_plan(&plan),
        Err(Violation::EmptyName { index: 1 })
    );
    let dup_then_empty = plan_of(vec![
        behavior("a", "A", "t"),
        behavior("a", "B", "t"),
        behavior("", "C", "t"),
    ]);
    assert_eq!(
        PlanManager::validate_plan(&dup_then_empty),
        Err(Violation::DuplicateId { index: 1, id: "a".to_string() })
    );
}

#[test]
fn prompt_is_rendered_exactly() {
    let plan = Plan {
        project: project("T", "D", "rust"),
        behaviors: vec![behavior("i1", "N1", "B1"), behavior("i2", "N2", "B2")],
    };
    let expected = "You are working on a project called \"T\" (rust). Project description: D\n\n\
This application has the following defined behaviors:\n\n\
1. **N1** (ID: i1)\n   B1\n\n\
2. **N2** (ID: i2)\n   B2\n\n\
When implementing features or making changes, refer to these behaviors to ensure consistency with the application's intended functionality. \
Use the builder extension tools to implement these behaviors effectively.";
    assert_eq!(PlanManager::generate_system_prompt(&plan), expected);
}

#[test]
fn prompt_numbers_past_nine() {
    let behaviors: Vec<PlanBehavior> = (1..=12)
        .map(|k| behavior(&format!("id{}", k), &format!("name{}", k), "text"))
        .collect();
    let prompt = PlanManager::generate_system_prompt(&plan_of(behaviors));
    assert!(prompt.contains("9. **name9** (ID: id9)"));
    assert!(prompt.contains("10. **name10** (ID: id10)"));
    assert!(prompt.contains("12. **name12** (ID: id12)"));
    let p9 = prompt.find("**name9**").unwrap();
    let p10 = prompt.find("**name10**").unwrap();
    assert!(p9 < p10);
}

#[test]
fn decimal_digits() {
    assert_eq!(decimal_string(0), "0");
    assert_eq!(decimal_string(7), "7");
    assert_eq!(decimal_string(10), "10");
    assert_eq!(decimal_string(1234), "1234");
    assert_eq!(decimal_string(usize::MAX), usize::MAX.to_string());
}

#[test]
fn plan_path_joins_file_name() {
    assert_eq!(PlanManager::plan_path_in_dir(""), "plan.yaml");
    assert_eq!(PlanManager::plan_path_in_dir("proj"), "proj/plan.yaml");
    assert_eq!(PlanManager::plan_path_in_dir("proj/"), "proj/plan.yaml");
    assert_eq!(PlanManager::plan_path_in_dir("/"), "/plan.yaml");
}

#[test]
fn test_plan_not_exists() {
    let temp_dir = TempDir::new().unwrap();
    let path = PlanManager::plan_path_in_dir(temp_dir.path().to_str().unwrap());
    assert!(!std::path::Path::new(&path).exists());

    let dir = temp_dir.path().to_str().unwrap();
    let result = PlanManager::load_plan_from_dir(dir, LoadOutcome::Missing);
    assert!(result.is_err());
    assert_eq!(result, Err(PlanError::NotFound { path }));
}

#[test]
fn plan_path_names_the_file_in_the_dir() {
    let temp_dir = TempDir::new().unwrap();
    let path = PlanManager::plan_path_in_dir(temp_dir.path().to_str().unwrap());
    assert!(!std::path::Path::new(&path).exists());
    let file = tempfile::Builder::new().tempfile_in(temp_dir.path()).unwrap();
    file.persist(temp_dir.path().join("plan.yaml")).unwrap();
    assert!(std::path::Path::new(&path).exists());
}

#[test]
fn load_outcomes_map_to_errors() {
    assert_eq!(
        PlanManager::finish_load("d/plan.yaml", LoadOutcome::Missing),
        Err(PlanError::NotFound { path: "d/plan.yaml".to_string() })
    );
    assert_eq!(
        PlanManager::finish_load("p", LoadOutcome::Unreadable { reason: "denied".to_string() }),
        Err(PlanError::ReadError { path: "p".to_string(), reason: "denied".to_string() })
    );
    assert_eq!(
        PlanManager::finish_load("p", LoadOutcome::Unparsable { reason: "bad".to_string() }),
        Err(PlanError::ParseError { path: "p".to_string(), reason: "bad".to_string() })
    );
    assert_eq!(
        PlanManager::finish_load("p", LoadOutcome::Parsed { plan: plan_of(vec![]) }),
        Err(PlanError::ValidationError {
            path: "p".to_string(),
            violation: Violation::NoBehaviors
        })
    );
    let good = plan_of(vec![behavior("a", "A", "t")]);
    assert_eq!(
        PlanManager::finish_load("p", LoadOutcome::Parsed { plan: good.clone() }),
        Ok(good)
    );
}

#[test]
fn load_from_dir_checks_the_parsed_plan() {
    let good = plan_of(vec![behavior("a", "A", "t")]);
    assert_eq!(
        PlanManager::load_plan_from_dir("proj", LoadOutcome::Parsed { plan: good.clone() }),
        Ok(good)
    );
    let bad = plan_of(vec![behavior("a", "A", "t"), behavior("a", "B", "t")]);
    assert_eq!(
        PlanManager::load_plan_from_dir("proj/", LoadOutcome::Parsed { plan: bad }),
        Err(PlanError::ValidationError {
            path: "proj/plan.yaml".to_string(),
            violation: Violation::DuplicateId { index: 1, id: "a".to_string() }
        })
    );
    assert_eq!(
        PlanManager::load_plan_from_dir("", LoadOutcome::Unparsable { reason: "bad".to_string() }),
        Err(PlanError::ParseError { path: "plan.yaml".to_string(), reason: "bad".to_string() })
    );
}

#[test]
fn sample_plan_is_valid() {
    let plan = PlanManager::sample_plan();
    assert!(PlanManager::validate_plan(&plan).is_ok());
    assert_eq!(plan.behaviors.len(), 4);
    assert_eq!(plan.behaviors[0].id, "user_authentication");
    assert_eq!(plan.project.language, "haskell");
    assert_eq!(plan.project.title, "Sample Application");
    let names: Vec<&str> = plan.behaviors.iter().map(|b| b.name.as_str()).collect();
    assert_eq!(
        names,
        vec!["User Authentication", "Data Persistence", "REST API Endpoints", "Frontend User Interface"]
    );
    let ids: Vec<&str> = plan.behaviors.iter().map(|b| b.id.as_str()).collect();
    assert_eq!(ids, vec!["user_authentication", "data_persistence", "api_endpoints", "frontend_ui"]);
    assert_eq!(PlanManager::sample_plan(), plan);
}

#[test]
fn default_language_is_haskell() {
    assert_eq!(default_language(), "haskell");
}
