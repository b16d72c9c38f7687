//! Transcoding tasks: a builder for the options, and the call that starts
//! the task on the host.

use crate::error::{lift, lifted, VtxError, VtxResult};
use crate::host::Host;
use crate::http::Response;
use vstd::prelude::*;
use vstd::string::StringExecFns;

verus! {

/// One option of a transcoding: a key with a value, or a bare flag.
pub struct FfmpegOption {
    pub key: String,
    pub value: Option<String>,
}

/// What the host needs to start a transcoding.
pub struct TranscodeProfile {
    pub profile: String,
    pub input_id: String,
    pub options: Vec<FfmpegOption>,
}

/// An option as contracts see it.
pub struct OptionView {
    pub key: Seq<char>,
    pub value: Option<Seq<char>>,
}

impl View for FfmpegOption {
    type V = OptionView;

    open spec fn view(&self) -> OptionView {
        OptionView {
            key: self.key@,
            value: match self.value {
                Some(v) => Some(v@),
                None => None,
            },
        }
    }
}

/// The contents of a list of options.
pub open spec fn option_views(options: Seq<FfmpegOption>) -> Seq<OptionView> {
    Seq::new(options.len(), |i: int| options[i]@)
}

/// A transcoding as contracts see it.
pub struct TaskView {
    pub profile: Seq<char>,
    pub input_id: Seq<char>,
    pub options: Seq<OptionView>,
}

impl View for TranscodeProfile {
    type V = TaskView;

    open spec fn view(&self) -> TaskView {
        TaskView {
            profile: self.profile@,
            input_id: self.input_id@,
            options: option_views(self.options@),
        }
    }
}

/// An option with a value.
pub open spec fn valued(key: Seq<char>, value: Seq<char>) -> OptionView {
    OptionView { key, value: Some(value) }
}

/// The options that a list of key and value pairs stands for, in order.
pub open spec fn valued_all(pairs: Seq<(String, String)>) -> Seq<OptionView> {
    Seq::new(pairs.len(), |i: int| valued(pairs[i].0@, pairs[i].1@))
}

/// The input that stands for the task's standard input.
pub open spec fn pipe_input() -> Seq<char> {
    "pipe:0"@
}

/// Builds a transcoding task. Options keep the order in which they were
/// given.
pub struct FfmpegTask {
    profile: String,
    input_id: String,
    options: Vec<FfmpegOption>,
}

impl View for FfmpegTask {
    type V = TaskView;

    closed spec fn view(&self) -> TaskView {
        TaskView {
            profile: self.profile@,
            input_id: self.input_id@,
            options: option_views(self.options@),
        }
    }
}

impl FfmpegTask {
    /// A task for the given profile and input, without options.
    pub fn new(profile: &str, input_id: &str) -> (task: Self)
        ensures
            task@ == (TaskView { profile: profile@, input_id: input_id@, options: Seq::empty() }),
    {
        let task = FfmpegTask {
            profile: String::from_str(profile),
            input_id: String::from_str(input_id),
            options: Vec::new(),
        };
        assert(option_views(task.options@) =~= Seq::<OptionView>::empty());
        task
    }

    /// A task that reads its input from the pipe `pipe:0`.
    pub fn new_pipe(profile: &str) -> (task: Self)
        ensures
            task@ == (TaskView { profile: profile@, input_id: pipe_input(), options: Seq::empty() }),
    {
        Self::new(profile, "pipe:0")
    }

    /// Adds an option with a value.
    pub fn option(self, key: &str, value: &str) -> (task: Self)
        ensures
            task@ == (TaskView { options: self@.options.push(valued(key@, value@)), ..self@ }),
    {
        let mut task = self;
        task.options.push(
            FfmpegOption { key: String::from_str(key), value: Some(String::from_str(value)) },
        );
        assert(option_views(task.options@) =~= option_views(self.options@).push(
            valued(key@, value@),
        ));
        task
    }

    /// Adds a flag: an option without a value.
    pub fn flag(self, key: &str) -> (task: Self)
        ensures
            task@ == (TaskView {
                options: self@.options.push(OptionView { key: key@, value: None }),
                ..self@
            }),
    {
        let mut task = self;
        task.options.push(FfmpegOption { key: String::from_str(key), value: None });
        assert(option_views(task.options@) =~= option_views(self.options@).push(
            OptionView { key: key@, value: None },
        ));
        task
    }

    /// Adds options with values, in the order given.
    pub fn options(self, options: Vec<(String, String)>) -> (task: Self)
        ensures
            task@ == (TaskView { options: self@.options + valued_all(options@), ..self@ }),
    {
        let mut task = self;
        let mut i: usize = 0;
        while i < options.len()
            invariant
                i <= options@.len(),
                task.profile == self.profile,
                task.input_id == self.input_id,
                option_views(task.options@) == option_views(self.options@) + valued_all(
                    options@,
                ).take(i as int),
            decreases options@.len() - i,
        {
            let ghost before = task.options@;
            let key = options[i].0.clone();
            let value = options[i].1.clone();
            task.options.push(FfmpegOption { key, value: Some(value) });
            assert(option_views(task.options@) =~= option_views(before).push(
                valued_all(options@)[i as int],
            ));
            assert(valued_all(options@).take(i + 1) =~= valued_all(options@).take(i as int).push(
                valued_all(options@)[i as int],
            ));
            i = i + 1;
        }
        assert(valued_all(options@).take(options@.len() as int) =~= valued_all(options@));
        task
    }

    /// Sets the output format: the option `f`.
    pub fn format(self, format: &str) -> (task: Self)
        ensures
            task@ == (TaskView { options: self@.options.push(valued("f"@, format@)), ..self@ }),
    {
        self.option("f", format)
    }

    /// Sets where the output starts, and how long it lasts where a duration
    /// is given: the option `ss`, then the option `t`.
    pub fn seek(self, start: &str, duration: Option<&str>) -> (task: Self)
        ensures
            task@ == (TaskView {
                options: match duration {
                    Some(d) => self@.options.push(valued("ss"@, start@)).push(valued("t"@, d@)),
                    None => self@.options.push(valued("ss"@, start@)),
                },
                ..self@
            }),
    {
        let task = self.option("ss", start);
        match duration {
            Some(d) => task.option("t", d),
            None => task,
        }
    }

    /// `r` is what comes of starting the transcoding on the host: the host
    /// was handed the profile, input and options built so far, and its answer
    /// is the pipe of the output, or a message classified by `host_error`.
    pub open spec fn started<H: Host>(self, host: &H, r: VtxResult<H::Buffer>) -> bool {
        exists|params: &TranscodeProfile, reply: Result<H::Buffer, String>|
            #![trigger call_ensures(H::transcode, (host, params), reply)]
            params@ == self@ && call_ensures(H::transcode, (host, params), reply) && r == lifted(
                reply,
            )
    }

    /// Starts the task and returns the pipe that its output comes through.
    pub fn execute_buffer<H: Host>(self, host: &H) -> (r: VtxResult<H::Buffer>)
        ensures
            self.started(host, r),
    {
        let params = TranscodeProfile {
            profile: self.profile,
            input_id: self.input_id,
            options: self.options,
        };
        let handed = &params;
        let reply = host.transcode(handed);
        let ghost seen = reply;
        let r = lift(reply);
        assert(handed@ == self@ && call_ensures(H::transcode, (host, handed), seen) && r == lifted(
            seen,
        ));
        r
    }

    /// Starts the task and returns a response with status 200 whose body is
    /// the pipe of the output.
    pub fn execute<H: Host>(self, host: &H) -> (r: VtxResult<Response<H::Buffer>>)
        ensures
            match r {
                Ok(resp) => {
                    &&& resp.status == 200
                    &&& resp.body matches Some(pipe) && self.started(
                        host,
                        Ok::<H::Buffer, VtxError>(pipe),
                    )
                },
                Err(e) => self.started(host, Err::<H::Buffer, VtxError>(e)),
            },
    {
        match self.execute_buffer(host) {
            Ok(pipe) => Ok(Response { status: 200, body: Some(pipe) }),
            Err(e) => Err(e),
        }
    }
}

} // verus!
