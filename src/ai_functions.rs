use vstd::prelude::*;

verus! {

/// The closed set of shaping functions: each renders a fixed instruction that
/// describes the output format expected from the language model.
#[derive(Clone, Copy, Debug, PartialEq, Eq, Structural)]
pub enum Shaper {
    /// Distil a free-text user request into a project goal.
    ConvertUserInputToGoal,
    /// Produce initial backend code from a template and a project description.
    PrintBackendWebserverCode,
    /// Produce improved backend code from prior code and the whole fact sheet.
    PrintImprovedWebserverCode,
    /// Fix given code given the bug or error text.
    PrintFixedCode,
    /// List the REST API endpoints of given code as JSON.
    PrintRestApiEndpoints,
}

/// The instruction that a shaping function renders.
pub open spec fn instruction_of(s: Shaper) -> Seq<char> {
    match s {
        Shaper::ConvertUserInputToGoal =>
            "fn convert_user_input_to_goal(_user_request: &str) { /// Input takes in a user request. /// IMPORTANT: Output only the goal, as a single sentence that states what the user asks to be built. /// Example: Input: build me a website tracking stock prices. Output: build a website that tracks stock prices. }"@,
        Shaper::PrintBackendWebserverCode =>
            "fn print_backend_webserver_code(_project_description_and_template: &str) { /// Input takes in a project description and a code template. /// Function uses the template as the basis for a full Rust webserver that meets the description. /// IMPORTANT: Only print the code, nothing else. }"@,
        Shaper::PrintImprovedWebserverCode =>
            "fn print_improved_webserver_code(_project_description_and_template: &str) { /// Input takes in prior webserver code and the project's fact sheet. /// Function improves the code so that it meets every point of the fact sheet and fixes obvious bugs. /// IMPORTANT: Only print the code, nothing else. }"@,
        Shaper::PrintFixedCode =>
            "fn print_fixed_code(_broken_code_with_bugs: &str) { /// Input takes in Rust code and the bugs or errors found in it. /// Function removes the bugs and returns the corrected code. /// IMPORTANT: Only print the code, nothing else. }"@,
        Shaper::PrintRestApiEndpoints =>
            "fn print_rest_api_endpoints(_code_input: &str) { /// Input takes in Rust webserver code. /// Function returns a JSON array of objects, one for each REST endpoint: is_route_dynamic, method, request_body, response, route. /// IMPORTANT: Only print the JSON, nothing else. }"@,
    }
}

/// The name under which a shaping function is reported as an agent operation.
pub open spec fn name_of(s: Shaper) -> Seq<char> {
    match s {
        Shaper::ConvertUserInputToGoal => "convert_user_input_to_goal"@,
        Shaper::PrintBackendWebserverCode => "print_backend_webserver_code"@,
        Shaper::PrintImprovedWebserverCode => "print_improved_webserver_code"@,
        Shaper::PrintFixedCode => "print_fixed_code"@,
        Shaper::PrintRestApiEndpoints => "print_rest_api_endpoints"@,
    }
}

impl Shaper {
    /// Renders the instruction of this shaping function; the input does not
    /// change it.
    pub fn render(&self, _input: &str) -> (r: &'static str)
        ensures
            r@ == instruction_of(*self),
    {
        match self {
            Shaper::ConvertUserInputToGoal =>
                "fn convert_user_input_to_goal(_user_request: &str) { /// Input takes in a user request. /// IMPORTANT: Output only the goal, as a single sentence that states what the user asks to be built. /// Example: Input: build me a website tracking stock prices. Output: build a website that tracks stock prices. }",
            Shaper::PrintBackendWebserverCode =>
                "fn print_backend_webserver_code(_project_description_and_template: &str) { /// Input takes in a project description and a code template. /// Function uses the template as the basis for a full Rust webserver that meets the description. /// IMPORTANT: Only print the code, nothing else. }",
            Shaper::PrintImprovedWebserverCode =>
                "fn print_improved_webserver_code(_project_description_and_template: &str) { /// Input takes in prior webserver code and the project's fact sheet. /// Function improves the code so that it meets every point of the fact sheet and fixes obvious bugs. /// IMPORTANT: Only print the code, nothing else. }",
            Shaper::PrintFixedCode =>
                "fn print_fixed_code(_broken_code_with_bugs: &str) { /// Input takes in Rust code and the bugs or errors found in it. /// Function removes the bugs and returns the corrected code. /// IMPORTANT: Only print the code, nothing else. }",
            Shaper::PrintRestApiEndpoints =>
                "fn print_rest_api_endpoints(_code_input: &str) { /// Input takes in Rust webserver code. /// Function returns a JSON array of objects, one for each REST endpoint: is_route_dynamic, method, request_body, response, route. /// IMPORTANT: Only print the JSON, nothing else. }",
        }
    }

    /// The name of this shaping function.
    pub fn name(&self) -> (r: &'static str)
        ensures
            r@ == name_of(*self),
    {
        match self {
            Shaper::ConvertUserInputToGoal => "convert_user_input_to_goal",
            Shaper::PrintBackendWebserverCode => "print_backend_webserver_code",
            Shaper::PrintImprovedWebserverCode => "print_improved_webserver_code",
            Shaper::PrintFixedCode => "print_fixed_code",
            Shaper::PrintRestApiEndpoints => "print_rest_api_endpoints",
        }
    }
}

} // verus!
