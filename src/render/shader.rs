//! Shader objects: what a compile attempt comes to, given the driver's report.
use vstd::prelude::*;
use vstd::utf8::{decode_utf8, valid_utf8};
use crate::glenum::{FRAGMENT_SHADER, TRUE, VERTEX_SHADER};
use crate::text::{contains_nul, utf8_to_string};
use crate::{shader_glenum_to_string, shader_stage_name};

verus! {

/// How a compile error names the stage `stage`.
pub open spec fn stage_label(stage: u32) -> Seq<char> {
    match shader_stage_name(stage) {
        Some(name) => name,
        None => "unknown"@,
    }
}

/// The error text for a failed compile of a `stage` shader whose log reads `log`:
/// the log verbatim, then the stage.
pub open spec fn compile_error_message(log: Seq<char>, stage: u32) -> Seq<char> {
    log + "In shader of type: "@ + stage_label(stage) + "!\n"@
}

/// What compiling a `stage` shader from `src` comes to when the driver reports
/// `status`, a log length of `log_len` and the log bytes `log`: the error text, or
/// None on success.
pub open spec fn compile_outcome(
    src: Seq<char>,
    stage: u32,
    status: i32,
    log_len: i32,
    log: Seq<u8>,
) -> Option<Seq<char>> {
    if src.contains('\0') {
        Some("Failed to convert string to CString!"@)
    } else if status == TRUE as i32 {
        None
    } else if log_len < 0 {
        Some(
            "Length of error message of shader compilation is either too big or negative!"@,
        )
    } else if valid_utf8(log) {
        Some(compile_error_message(decode_utf8(log), stage))
    } else {
        Some("ShaderInfoLog not a valid utf8 string!"@)
    }
}

/// A failed compile of a source without nul characters, whose log has a
/// non-negative length and is valid UTF-8, reports the log text verbatim at the
/// start of the error.
pub proof fn lemma_compile_error_keeps_log(
    src: Seq<char>,
    stage: u32,
    status: i32,
    log_len: i32,
    log: Seq<u8>,
)
    requires
        !src.contains('\0'),
        status != TRUE as i32,
        log_len >= 0,
        valid_utf8(log),
    ensures
        compile_outcome(src, stage, status, log_len, log) matches Some(m) && m.subrange(
            0,
            decode_utf8(log).len() as int,
        ) == decode_utf8(log),
{
    let text = decode_utf8(log);
    let m = compile_error_message(text, stage);
    assert(m.subrange(0, text.len() as int) =~= text);
}

/// A compiled shader object.
pub struct ShaderBase {
    id: u32,
}

impl ShaderBase {
    pub closed spec fn spec_id(&self) -> u32 {
        self.id
    }

    /// The shader object `id` of stage `sh_type`, compiled from `src`, given what
    /// the driver reported: the compile status, the length of the info log and
    /// the log's bytes without the closing nul. A source holding a nul character
    /// cannot be handed to the driver and fails first. A failed compile fails with
    /// the log text verbatim followed by the stage, unless the log is no valid
    /// UTF-8 or its length was negative.
    pub fn new(
        src: &str,
        sh_type: u32,
        id: u32,
        compile_status: i32,
        log_len: i32,
        log: &Vec<u8>,
    ) -> (r: Result<Self, String>)
        ensures
            r is Ok <==> compile_outcome(src@, sh_type, compile_status, log_len, log@) is None,
            r matches Ok(s) ==> s.spec_id() == id,
            r matches Err(e) ==> Some(e@) == compile_outcome(
                src@,
                sh_type,
                compile_status,
                log_len,
                log@,
            ),
    {
        if contains_nul(src) {
            return Err(String::from_str("Failed to convert string to CString!"));
        }
        if compile_status == TRUE as i32 {
            return Ok(ShaderBase { id });
        }
        if log_len < 0 {
            return Err(
                String::from_str(
                    "Length of error message of shader compilation is either too big or negative!",
                ),
            );
        }
        match utf8_to_string(log) {
            Some(msg) => {
                let t = match shader_glenum_to_string(sh_type) {
                    Some(name) => name,
                    None => "unknown",
                };
                let mut e = msg;
                e.append("In shader of type: ");
                e.append(t);
                e.append("!\n");
                Err(e)
            },
            None => Err(String::from_str("ShaderInfoLog not a valid utf8 string!")),
        }
    }

    /// Gives up the shader object and hands back the handle to delete at the
    /// driver; the object is consumed, so the handle is deleted at most once.
    pub fn destroy(self) -> (id: u32)
        ensures
            id == self.spec_id(),
    {
        self.id
    }

    /// The driver's handle of the shader object.
    pub fn get_id(&self) -> (r: u32)
        ensures
            r == self.spec_id(),
    {
        self.id
    }
}

/// A compiled vertex shader.
pub struct VertexShader(ShaderBase);

/// A compiled fragment shader.
pub struct FragmentShader(ShaderBase);

impl VertexShader {
    pub closed spec fn spec_base(&self) -> ShaderBase {
        self.0
    }

    /// `ShaderBase::new` for the vertex stage.
    pub fn new(src: &str, id: u32, compile_status: i32, log_len: i32, log: &Vec<u8>) -> (r: Result<
        Self,
        String,
    >)
        ensures
            r is Ok <==> compile_outcome(src@, VERTEX_SHADER, compile_status, log_len, log@) is None,
            r matches Ok(s) ==> s.spec_base().spec_id() == id,
            r matches Err(e) ==> Some(e@) == compile_outcome(
                src@,
                VERTEX_SHADER,
                compile_status,
                log_len,
                log@,
            ),
    {
        match ShaderBase::new(src, VERTEX_SHADER, id, compile_status, log_len, log) {
            Ok(s) => Ok(VertexShader(s)),
            Err(e) => Err(e),
        }
    }

    pub fn get_shader_base(&self) -> (r: &ShaderBase)
        ensures
            *r == self.spec_base(),
    {
        &self.0
    }

    /// The shader object itself.
    pub fn into_shader_base(self) -> (r: ShaderBase)
        ensures
            r == self.spec_base(),
    {
        self.0
    }
}

impl FragmentShader {
    pub closed spec fn spec_base(&self) -> ShaderBase {
        self.0
    }

    /// `ShaderBase::new` for the fragment stage.
    pub fn new(src: &str, id: u32, compile_status: i32, log_len: i32, log: &Vec<u8>) -> (r: Result<
        Self,
        String,
    >)
        ensures
            r is Ok <==> compile_outcome(src@, FRAGMENT_SHADER, compile_status, log_len, log@)
                is None,
            r matches Ok(s) ==> s.spec_base().spec_id() == id,
            r matches Err(e) ==> Some(e@) == compile_outcome(
                src@,
                FRAGMENT_SHADER,
                compile_status,
                log_len,
                log@,
            ),
    {
        match ShaderBase::new(src, FRAGMENT_SHADER, id, compile_status, log_len, log) {
            Ok(s) => Ok(FragmentShader(s)),
            Err(e) => Err(e),
        }
    }

    pub fn get_shader_base(&self) -> (r: &ShaderBase)
        ensures
            *r == self.spec_base(),
    {
        &self.0
    }

    /// The shader object itself.
    pub fn into_shader_base(self) -> (r: ShaderBase)
        ensures
            r == self.spec_base(),
    {
        self.0
    }
}

} // verus!
