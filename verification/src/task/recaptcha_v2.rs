//! The reCAPTCHA v2 task variant: the one concrete implementation of the
//! task / task-config / solution contract this crate ships.

use vstd::prelude::*;

use crate::ext::{json_solution_str_field, json_str_field, read_solution_str_field, read_str_field};
use crate::jsonfmt::{append_json_string, json_string_lit};
use crate::{Task, TaskConfig, TaskSolution};

verus! {

/// A submitted reCAPTCHA v2 task: the server-assigned correlation key for
/// polling.
#[derive(Debug, Clone)]
pub struct ReCaptchaV2 {
    pub task_id: String,
}

impl Task for ReCaptchaV2 {
    type Solution = ReCaptchaV2Solution;

    open spec fn id(&self) -> Seq<char> {
        self.task_id@
    }

    fn task_id(&self) -> (r: &str) {
        self.task_id.as_str()
    }

    open spec fn body_decodable(body: Seq<char>) -> bool {
        json_str_field(body, "taskId"@) is Some
    }

    open spec fn body_decodes_to(body: Seq<char>, t: Self) -> bool {
        json_str_field(body, "taskId"@) == Some(t.task_id@)
    }

    fn from_body(body: &str) -> (r: Option<Self>) {
        match read_str_field(body, "taskId") {
            None => None,
            Some(id) => Some(ReCaptchaV2 { task_id: id }),
        }
    }
}

/// The flavour of reCAPTCHA v2 task to submit; serialized as the exact tag
/// string the service expects in the `type` field.
#[derive(Debug, Clone, Copy, PartialEq, Eq, Structural)]
pub enum TaskType {
    NoCaptchaTaskProxyless,
    RecaptchaV2TaskProxyless,
}

/// The tag string a [`TaskType`] serializes to.
pub open spec fn task_type_tag(t: TaskType) -> Seq<char> {
    match t {
        TaskType::NoCaptchaTaskProxyless => "NoCaptchaTaskProxyless"@,
        TaskType::RecaptchaV2TaskProxyless => "RecaptchaV2TaskProxyless"@,
    }
}

impl TaskType {
    /// The tag string the service expects in the `type` field.
    pub fn tag(&self) -> (r: &'static str)
        ensures
            r@ == task_type_tag(*self),
    {
        match self {
            TaskType::NoCaptchaTaskProxyless => "NoCaptchaTaskProxyless",
            TaskType::RecaptchaV2TaskProxyless => "RecaptchaV2TaskProxyless",
        }
    }
}

/// The caller-supplied description of a reCAPTCHA v2 challenge.  Serialized
/// verbatim into the submit request; note the exact wire casing of the
/// `websiteURL` key and the `type` discriminant key.
#[derive(Debug, Clone)]
pub struct ReCaptchaV2Config {
    pub website_url: String,
    pub website_key: String,
    pub task_type: TaskType,
    pub is_invisible: bool,
}

impl TaskConfig for ReCaptchaV2Config {
    type Task = ReCaptchaV2;

    open spec fn config_json(&self) -> Seq<char> {
        "{\"websiteURL\":"@ + json_string_lit(self.website_url@)
            + ",\"websiteKey\":"@ + json_string_lit(self.website_key@)
            + ",\"type\":\""@ + task_type_tag(self.task_type)
            + "\",\"isInvisible\":"@ + (if self.is_invisible { "true"@ } else { "false"@ })
            + "}"@
    }

    fn to_json(&self) -> (r: String) {
        let mut out = String::new();
        out.append("{\"websiteURL\":");
        append_json_string(&mut out, self.website_url.as_str());
        out.append(",\"websiteKey\":");
        append_json_string(&mut out, self.website_key.as_str());
        out.append(",\"type\":\"");
        out.append(self.task_type.tag());
        out.append("\",\"isInvisible\":");
        if self.is_invisible {
            out.append("true");
        } else {
            out.append("false");
        }
        out.append("}");
        proof {
            assert(out@ =~= self.config_json());
        }
        out
    }
}

/// The token produced once a reCAPTCHA v2 task completes.
#[derive(Debug, Clone)]
pub struct ReCaptchaV2Solution {
    pub g_recaptcha_response: String,
}

impl TaskSolution for ReCaptchaV2Solution {
    open spec fn solution_decodable(body: Seq<char>) -> bool {
        json_solution_str_field(body, "gRecaptchaResponse"@) is Some
    }

    open spec fn solution_decodes_to(body: Seq<char>, s: Self) -> bool {
        json_solution_str_field(body, "gRecaptchaResponse"@) == Some(s.g_recaptcha_response@)
    }

    fn from_body(body: &str) -> (r: Option<Self>) {
        match read_solution_str_field(body, "gRecaptchaResponse") {
            None => None,
            Some(tok) => Some(ReCaptchaV2Solution { g_recaptcha_response: tok }),
        }
    }
}

} // verus!
