use vstd::prelude::*;
use vstd::string::*;

use crate::manager::PlanManager;
use crate::plan::{default_language, default_language_text, Plan, PlanBehavior, ProjectInfo};
use crate::validate::{behavior_sound, id_seen_before, plan_valid};

verus! {

/// A behavior built from literal texts.
fn behavior_of(id: &str, name: &str, behavior: &str) -> (r: PlanBehavior)
    ensures
        r.id@ == id@,
        r.name@ == name@,
        r.behavior@ == behavior@,
{
    PlanBehavior {
        id: String::from_str(id),
        name: String::from_str(name),
        behavior: String::from_str(behavior),
    }
}

impl PlanManager {
    /// A fixed example plan: a web application with four behaviors, on
    /// authentication, persistence, an API and a frontend, each text fixed.
    /// It is valid.
    pub fn sample_plan() -> (r: Plan)
        ensures
            plan_valid(r),
            r.project.language@ == default_language_text(),
            r.behaviors@.len() == 4,
            r.behaviors@[0].id@ == "user_authentication"@,
            r.behaviors@[1].id@ == "data_persistence"@,
            r.behaviors@[2].id@ == "api_endpoints"@,
            r.behaviors@[3].id@ == "frontend_ui"@,
            r.project.title@ == "Sample Application"@,
            r.project.description@ == "A sample web application demonstrating modern development practices with user authentication, data persistence, and a responsive frontend."@,
            r.behaviors@[0].name@ == "User Authentication"@,
            r.behaviors@[1].name@ == "Data Persistence"@,
            r.behaviors@[2].name@ == "REST API Endpoints"@,
            r.behaviors@[3].name@ == "Frontend User Interface"@,
            r.behaviors@[0].behavior@ == "Implement secure user login and registration with email verification. Support OAuth providers like Google and GitHub. Include password reset functionality and session management."@,
            r.behaviors@[1].behavior@ == "Set up database schema and models for storing user data, application state, and business logic. Use appropriate indexing and ensure data integrity with proper validation."@,
            r.behaviors@[2].behavior@ == "Create RESTful API endpoints for all core functionality. Include proper error handling, input validation, rate limiting, and comprehensive API documentation."@,
            r.behaviors@[3].behavior@ == "Build responsive web interface with modern UI components. Ensure accessibility compliance and cross-browser compatibility. Implement real-time updates where appropriate."@,
    {
        let project = ProjectInfo {
            title: String::from_str("Sample Application"),
            description: String::from_str("A sample web application demonstrating modern development practices with user authentication, data persistence, and a responsive frontend."),
            language: default_language(),
        };
        let b0 = behavior_of(
            "user_authentication",
            "User Authentication",
            "Implement secure user login and registration with email verification. Support OAuth providers like Google and GitHub. Include password reset functionality and session management.",
        );
        let b1 = behavior_of(
            "data_persistence",
            "Data Persistence",
            "Set up database schema and models for storing user data, application state, and business logic. Use appropriate indexing and ensure data integrity with proper validation.",
        );
        let b2 = behavior_of(
            "api_endpoints",
            "REST API Endpoints",
            "Create RESTful API endpoints for all core functionality. Include proper error handling, input validation, rate limiting, and comprehensive API documentation.",
        );
        let b3 = behavior_of(
            "frontend_ui",
            "Frontend User Interface",
            "Build responsive web interface with modern UI components. Ensure accessibility compliance and cross-browser compatibility. Implement real-time updates where appropriate.",
        );
        let behaviors = vec![b0, b1, b2, b3];
        proof {
            reveal_strlit("user_authentication");
            reveal_strlit("data_persistence");
            reveal_strlit("api_endpoints");
            reveal_strlit("frontend_ui");
            reveal_strlit("User Authentication");
            reveal_strlit("Data Persistence");
            reveal_strlit("REST API Endpoints");
            reveal_strlit("Frontend User Interface");
            reveal_strlit("Implement secure user login and registration with email verification. Support OAuth providers like Google and GitHub. Include password reset functionality and session management.");
            reveal_strlit("Set up database schema and models for storing user data, application state, and business logic. Use appropriate indexing and ensure data integrity with proper validation.");
            reveal_strlit("Create RESTful API endpoints for all core functionality. Include proper error handling, input validation, rate limiting, and comprehensive API documentation.");
            reveal_strlit("Build responsive web interface with modern UI components. Ensure accessibility compliance and cross-browser compatibility. Implement real-time updates where appropriate.");
            let bs = behaviors@;
            assert(bs[0].id@[0] == 'u' && bs[1].id@[0] == 'd' && bs[2].id@[0] == 'a' && bs[3].id@[0] == 'f');
            assert forall|i: int| 0 <= i < 4 implies #[trigger] behavior_sound(bs, i) by {
                assert(!id_seen_before(bs, i));
            }
        }
        Plan { project, behaviors }
    }
}

} // verus!
