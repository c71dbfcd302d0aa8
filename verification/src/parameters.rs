//! The options of a run as the command line gives them.

use crate::decimal::parse_number;
use crate::decimal::parsed_number;
use crate::settings::VLAN_ID_MAX;
use crate::settings::VLAN_ID_MIN;
use crate::text::has_prefix;
use crate::text::split_at_first;
use crate::text::split_once;
use crate::text::text_equal;
use vstd::prelude::*;
use vstd::string::StringExecFns;

verus! {

/// The options of a run.
#[derive(Clone, Debug, PartialEq, Eq)]
pub struct Parameter {
    /// Seconds to wait on each VLAN for an address.
    pub wait: u16,
    /// The first VLAN ID of the range.
    pub range_min: u32,
    /// The last VLAN ID of the range.
    pub range_max: u32,
    /// The base interface.
    pub interface: String,
}

/// Options over characters.
pub struct ParameterView {
    pub wait: u16,
    pub range_min: u32,
    pub range_max: u32,
    pub interface: Seq<char>,
}

impl View for Parameter {
    type V = ParameterView;

    open spec fn view(&self) -> ParameterView {
        ParameterView {
            wait: self.wait,
            range_min: self.range_min,
            range_max: self.range_max,
            interface: self.interface@,
        }
    }
}

impl ParameterView {
    /// The options of a run that was given none: three seconds on each VLAN of
    /// the whole legal range, on `eth0`.
    pub open spec fn init() -> ParameterView {
        ParameterView { wait: 3, range_min: 1, range_max: 4094, interface: "eth0"@ }
    }

    /// The delay is positive and both ends of the range are VLAN IDs that a
    /// tag can carry.
    pub open spec fn valid(self) -> bool {
        &&& self.wait >= 1
        &&& VLAN_ID_MIN <= self.range_min <= VLAN_ID_MAX
        &&& VLAN_ID_MIN <= self.range_max <= VLAN_ID_MAX
    }
}

impl Parameter {
    /// The default options.
    pub fn init() -> (r: Parameter)
        ensures
            r@ == ParameterView::init(),
            r@.valid(),
    {
        Parameter { wait: 3, range_min: 1, range_max: 4094, interface: String::from_str("eth0") }
    }
}

/// What the reader of the arguments has to tell the user, besides the result.
#[derive(Clone, Copy, Debug, PartialEq, Eq)]
pub enum Notice {
    /// The argument at this position is being read.
    Argument(usize),
    /// The help text: the value of the range option holds no hyphen.
    Help,
    /// The interface option has no value. The help text follows.
    InterfaceMissing,
    /// The wait option has no value. The help text follows.
    WaitMissing,
}

/// Why the reader of the arguments gave up.
#[derive(Clone, Copy, Debug, PartialEq, Eq)]
pub enum ArgumentError {
    /// An argument is none of the options. The run ends with the help text
    /// and status 0.
    UnknownOption,
    /// The value of the wait option is no number from 1 to 65535. The run
    /// ends with status 2.
    InvalidWait,
    /// An end of the range is no VLAN ID: no number from 1 to 4094.
    InvalidRange,
}

/// What reading one argument comes to.
struct Step {
    /// The position of the next argument to read; the number of arguments
    /// when none is left.
    next: usize,
    /// What to tell the user.
    notice: Option<Notice>,
    /// Why no further argument is read.
    stop: Option<ArgumentError>,
}

/// The options after one argument, with the step.
pub struct StepView {
    pub options: ParameterView,
    pub next: int,
    pub notice: Option<Notice>,
    pub stop: Option<ArgumentError>,
}

/// What reading all arguments comes to.
#[derive(Debug, PartialEq, Eq)]
pub struct Arguments {
    /// What to tell the user, in order.
    pub notices: Vec<Notice>,
    /// The options, or why there are none.
    pub result: Result<Parameter, ArgumentError>,
}

/// The reading of all arguments over characters.
pub struct ArgumentsView {
    pub notices: Seq<Notice>,
    pub result: Result<ParameterView, ArgumentError>,
}

impl View for Arguments {
    type V = ArgumentsView;

    open spec fn view(&self) -> ArgumentsView {
        ArgumentsView {
            notices: self.notices@,
            result: match self.result {
                Ok(options) => Ok(options@),
                Err(error) => Err(error),
            },
        }
    }
}

/// Arguments over characters.
pub open spec fn texts(args: Seq<String>) -> Seq<Seq<char>> {
    args.map_values(|arg: String| arg@)
}

/// Whether the argument after position `i` is there and is a value: it does
/// not begin with a hyphen.
pub open spec fn has_value(args: Seq<Seq<char>>, i: int) -> bool {
    i + 1 < args.len() && !"-"@.is_prefix_of(args[i + 1])
}

/// The position after an option and the place of its value.
pub open spec fn after_value(args: Seq<Seq<char>>, i: int) -> int {
    if i + 1 < args.len() {
        i + 2
    } else {
        args.len() as int
    }
}

/// The VLAN ID that a text denotes: a number from 1 to 4094.
pub open spec fn parsed_vlan_id(text: Seq<char>) -> Option<u32> {
    match parsed_number(text, VLAN_ID_MAX as nat) {
        Some(id) => if id >= VLAN_ID_MIN {
            Some(id as u32)
        } else {
            None
        },
        None => None,
    }
}

/// The delay that a text denotes: a number from 1 to 65535.
pub open spec fn parsed_wait(text: Seq<char>) -> Option<u16> {
    match parsed_number(text, u16::MAX as nat) {
        Some(wait) => if wait >= 1 {
            Some(wait as u16)
        } else {
            None
        },
        None => None,
    }
}

/// Reading the range option at position `i`. Its value is two VLAN IDs around
/// a hyphen; an end that is no VLAN ID stops the reading. A value without a
/// hyphen brings up the help and changes nothing; without a value nothing is
/// changed. The place of the value is passed over in each case.
pub open spec fn range_step(args: Seq<Seq<char>>, i: int, options: ParameterView) -> StepView {
    let next = after_value(args, i);
    if !has_value(args, i) {
        StepView { options, next, notice: None, stop: None }
    } else {
        match split_at_first(args[i + 1], '-') {
            None => StepView { options, next, notice: Some(Notice::Help), stop: None },
            Some((low, high)) => match (parsed_vlan_id(low), parsed_vlan_id(high)) {
                (Some(min), Some(max)) => StepView {
                    options: ParameterView { range_min: min, range_max: max, ..options },
                    next,
                    notice: None,
                    stop: None,
                },
                _ => StepView {
                    options,
                    next,
                    notice: None,
                    stop: Some(ArgumentError::InvalidRange),
                },
            },
        }
    }
}

/// Reading the interface option at position `i`. Without a value the user is
/// told so, and the next argument is read as an option.
pub open spec fn interface_step(args: Seq<Seq<char>>, i: int, options: ParameterView) -> StepView {
    if has_value(args, i) {
        StepView {
            options: ParameterView { interface: args[i + 1], ..options },
            next: i + 2,
            notice: None,
            stop: None,
        }
    } else {
        StepView { options, next: i + 1, notice: Some(Notice::InterfaceMissing), stop: None }
    }
}

/// Reading the wait option at position `i`. Its value is a delay of at least
/// one second; anything else stops the reading. Without a value the user is
/// told so, and the place of the value is passed over.
pub open spec fn wait_step(args: Seq<Seq<char>>, i: int, options: ParameterView) -> StepView {
    let next = after_value(args, i);
    if !has_value(args, i) {
        StepView { options, next, notice: Some(Notice::WaitMissing), stop: None }
    } else {
        match parsed_wait(args[i + 1]) {
            Some(wait) => StepView {
                options: ParameterView { wait, ..options },
                next,
                notice: None,
                stop: None,
            },
            None => StepView {
                options,
                next,
                notice: None,
                stop: Some(ArgumentError::InvalidWait),
            },
        }
    }
}

/// Reading the argument at position `i`.
pub open spec fn step(args: Seq<Seq<char>>, i: int, options: ParameterView) -> StepView {
    let arg = args[i];
    if arg == "-r"@ || arg == "--range"@ {
        range_step(args, i, options)
    } else if arg == "-i"@ || arg == "--interface"@ {
        interface_step(args, i, options)
    } else if arg == "-w"@ || arg == "--wait"@ {
        wait_step(args, i, options)
    } else {
        StepView {
            options,
            next: i + 1,
            notice: None,
            stop: Some(ArgumentError::UnknownOption),
        }
    }
}

/// Reading the arguments from position `i` on, one step after the other,
/// until none is left or a step stops.
pub open spec fn read_from(args: Seq<Seq<char>>, i: int, options: ParameterView) -> ArgumentsView
    decreases args.len() - i,
{
    if i < 0 || i >= args.len() {
        ArgumentsView { notices: Seq::empty(), result: Ok(options) }
    } else {
        let one = step(args, i, options);
        let shown = match one.notice {
            Some(notice) => seq![Notice::Argument(i as usize), notice],
            None => seq![Notice::Argument(i as usize)],
        };
        match one.stop {
            Some(error) => ArgumentsView { notices: shown, result: Err(error) },
            None => {
                let rest = read_from(args, one.next, one.options);
                ArgumentsView { notices: shown + rest.notices, result: rest.result }
            },
        }
    }
}

/// Reading the arguments of a run: all but the first, which names the
/// program, starting from the default options.
pub open spec fn read_arguments(args: Seq<Seq<char>>) -> ArgumentsView {
    read_from(args, 1, ParameterView::init())
}

/// Tells whether the argument after position `i` is there and is a value.
fn value_follows(args: &Vec<String>, i: usize) -> (r: bool)
    requires
        i < args.len(),
    ensures
        r == has_value(texts(args@), i as int),
{
    i + 1 < args.len() && !has_prefix(args[i + 1].as_str(), "-")
}

/// The position after an option and the place of its value.
fn skip_value(args: &Vec<String>, i: usize) -> (r: usize)
    requires
        i < args.len(),
    ensures
        r == after_value(texts(args@), i as int),
        i < r <= args.len(),
{
    if i + 1 < args.len() {
        i + 2
    } else {
        args.len()
    }
}

/// Reads a VLAN ID.
pub fn parse_vlan_id(text: &str) -> (r: Option<u32>)
    ensures
        r == parsed_vlan_id(text@),
{
    match parse_number(text, VLAN_ID_MAX as u64) {
        Some(id) => if id >= VLAN_ID_MIN as u64 {
            Some(id as u32)
        } else {
            None
        },
        None => None,
    }
}

/// Reads a delay in seconds.
pub fn parse_wait(text: &str) -> (r: Option<u16>)
    ensures
        r == parsed_wait(text@),
{
    match parse_number(text, u16::MAX as u64) {
        Some(wait) => if wait >= 1 {
            Some(wait as u16)
        } else {
            None
        },
        None => None,
    }
}

/// Reads the two ends of a range out of the value of the range option.
fn read_range(value: &str) -> (r: Option<Result<(u32, u32), ArgumentError>>)
    ensures
        match split_at_first(value@, '-') {
            None => r is None,
            Some((low, high)) => match (parsed_vlan_id(low), parsed_vlan_id(high)) {
                (Some(min), Some(max)) => r == Some(Ok::<(u32, u32), ArgumentError>((min, max))),
                _ => r == Some(Err::<(u32, u32), ArgumentError>(ArgumentError::InvalidRange)),
            },
        },
{
    match split_once(value, '-') {
        None => None,
        Some((low, high)) => {
            let min = parse_vlan_id(low);
            let max = parse_vlan_id(high);
            match (min, max) {
                (Some(min), Some(max)) => Some(Ok((min, max))),
                _ => Some(Err(ArgumentError::InvalidRange)),
            }
        },
    }
}

/// Reads the argument at position `i` into the options.
fn read_argument(args: &Vec<String>, i: usize, options: &mut Parameter) -> (r: Step)
    requires
        i < args.len(),
    ensures
        ({
            let one = step(texts(args@), i as int, old(options)@);
            &&& final(options)@ == one.options
            &&& r.next == one.next
            &&& r.notice == one.notice
            &&& r.stop == one.stop
        }),
        i < r.next <= args.len(),
{
    let arg = args[i].as_str();
    if text_equal(arg, "-r") || text_equal(arg, "--range") {
        let next = skip_value(args, i);
        if !value_follows(args, i) {
            return Step { next, notice: None, stop: None };
        }
        match read_range(args[i + 1].as_str()) {
            None => Step { next, notice: Some(Notice::Help), stop: None },
            Some(Ok((min, max))) => {
                options.range_min = min;
                options.range_max = max;
                Step { next, notice: None, stop: None }
            },
            Some(Err(error)) => Step { next, notice: None, stop: Some(error) },
        }
    } else if text_equal(arg, "-i") || text_equal(arg, "--interface") {
        if value_follows(args, i) {
            options.interface = args[i + 1].clone();
            Step { next: i + 2, notice: None, stop: None }
        } else {
            Step { next: i + 1, notice: Some(Notice::InterfaceMissing), stop: None }
        }
    } else if text_equal(arg, "-w") || text_equal(arg, "--wait") {
        let next = skip_value(args, i);
        if !value_follows(args, i) {
            return Step { next, notice: Some(Notice::WaitMissing), stop: None };
        }
        match parse_wait(args[i + 1].as_str()) {
            Some(wait) => {
                options.wait = wait;
                Step { next, notice: None, stop: None }
            },
            None => Step { next, notice: None, stop: Some(ArgumentError::InvalidWait) },
        }
    } else {
        Step { next: i + 1, notice: None, stop: Some(ArgumentError::UnknownOption) }
    }
}

/// Reading the arguments never hands on options outside the legal space:
/// read from valid options on, the options that come out are valid, with a
/// positive delay and both ends of the range from 1 to 4094.
pub proof fn lemma_read_options_are_valid(args: Seq<Seq<char>>, i: int, options: ParameterView)
    requires
        options.valid(),
    ensures
        read_from(args, i, options).result matches Ok(read) ==> read.valid(),
    decreases args.len() - i,
{
    if 0 <= i < args.len() {
        let one = step(args, i, options);
        if one.stop is None {
            lemma_read_options_are_valid(args, one.next, one.options);
        }
    }
}

/// Reads the arguments of a run into its options. Options that come out are
/// valid.
pub fn handle_arguments(args: Vec<String>) -> (r: Arguments)
    ensures
        r@ == read_arguments(texts(args@)),
        r@.result matches Ok(options) ==> options.valid(),
{
    proof {
        lemma_read_options_are_valid(texts(args@), 1, ParameterView::init());
    }
    let mut i: usize = 1;
    let mut param = Parameter::init();
    let mut notices: Vec<Notice> = Vec::new();
    let ghost all = texts(args@);
    while i < args.len()
        invariant
            1 <= i,
            all == texts(args@),
            read_arguments(all).notices == notices@ + read_from(all, i as int, param@).notices,
            read_arguments(all).result == read_from(all, i as int, param@).result,
        decreases args.len() - i,
    {
        let ghost before = read_from(all, i as int, param@);
        let ghost shown = notices@;
        let one = read_argument(&args, i, &mut param);
        notices.push(Notice::Argument(i));
        if let Some(notice) = one.notice {
            notices.push(notice);
        }
        if let Some(error) = one.stop {
            assert(notices@ =~= shown + before.notices);
            return Arguments { notices, result: Err(error) };
        }
        proof {
            let rest = read_from(all, one.next as int, param@);
            assert(before.notices =~= (notices@.subrange(shown.len() as int, notices@.len() as int))
                + rest.notices);
        }
        i = one.next;
    }
    Arguments { notices, result: Ok(param) }
}

} // verus!
