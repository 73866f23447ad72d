use tensorflux::{
    Buffer, Code, Definition, Elements, EngineStatus, Error, Float32, Float64, Handle, Input, Output,
    RawTensor, RunCall, RunReply, Session, Target, Tensor, TensorContent, Type,
};

/// What the fake engine does when its batch execute is invoked.
enum Behavior {
    /// Each output mirrors the input at the same position.
    PassThrough,
    /// One output: the element-wise product of two 32-bit float inputs.
    ElementwiseProduct,
    /// Refuse the call with this status.
    Fail(u32, &'static str),
}

/// A reference-counting fake engine: it mints handles, remembers which are
/// live and what content each wraps, and counts batch invocations.
struct FakeEngine {
    next: u64,
    live: Vec<u64>,
    stash: Vec<(u64, TensorContent)>,
    invocations: usize,
    behavior: Behavior,
}

impl FakeEngine {
    fn new(behavior: Behavior) -> FakeEngine {
        FakeEngine { next: 0, live: Vec::new(), stash: Vec::new(), invocations: 0, behavior }
    }

    fn mint(&mut self) -> u64 {
        self.next += 1;
        self.live.push(self.next);
        self.next
    }

    fn grant_handle(&mut self, content: &TensorContent) -> Handle {
        let id = self.mint();
        self.stash.push((id, content.clone()));
        Handle::new(id)
    }

    fn free(&mut self, id: u64) {
        let pos = self
            .live
            .iter()
            .position(|x| *x == id)
            .expect("released a handle that is not live");
        self.live.remove(pos);
    }

    fn release(&mut self, h: Handle) {
        self.free(h.id());
    }

    fn release_all(&mut self, hs: Vec<Handle>) {
        for h in hs {
            self.release(h);
        }
    }

    fn content_of(&self, id: u64) -> &TensorContent {
        &self.stash.iter().find(|(i, _)| *i == id).expect("unknown handle").1
    }

    fn raw_from(&mut self, dims: Vec<i64>, elements: Elements) -> RawTensor {
        let id = self.mint();
        RawTensor::new(Handle::new(id), dims, elements).expect("malformed fake tensor")
    }

    /// The one synchronous batch execute of a run. On success the engine
    /// consumes the input handles via its own deallocation path; on failure
    /// it takes ownership of nothing.
    fn execute(&mut self, call: &RunCall) -> RunReply {
        self.invocations += 1;
        let ids: Vec<u64> = call.handles().iter().map(|h| h.id()).collect();
        match self.behavior {
            Behavior::Fail(code, msg) => {
                RunReply::Failure(EngineStatus { code, message: msg.to_string() })
            }
            Behavior::PassThrough => {
                let mut outs = Vec::new();
                for i in 0..call.output_count() {
                    let content = self.content_of(ids[i]).clone();
                    outs.push(self.raw_from(content.dimensions, content.elements));
                }
                for id in ids {
                    self.free(id);
                }
                RunReply::Success { outputs: outs, metadata: None }
            }
            Behavior::ElementwiseProduct => {
                let a = self.content_of(ids[0]).clone();
                let b = self.content_of(ids[1]).clone();
                let (va, vb) = match (a.elements, b.elements) {
                    (Elements::Float(va), Elements::Float(vb)) => (va, vb),
                    _ => panic!("the product graph wants 32-bit floats"),
                };
                let prod: Vec<Float32> = va
                    .iter()
                    .zip(vb.iter())
                    .map(|(x, y)| Float32 {
                        bits: (f32::from_bits(x.bits) * f32::from_bits(y.bits)).to_bits(),
                    })
                    .collect();
                let raw = self.raw_from(a.dimensions, Elements::Float(prod));
                for id in ids {
                    self.free(id);
                }
                RunReply::Success { outputs: vec![raw], metadata: None }
            }
        }
    }
}

/// Drive one whole run against the fake engine: validate, acquire one handle
/// per input, execute, adopt the results, release what the library says to
/// release.
fn run(
    eng: &mut FakeEngine,
    sess: &mut Session,
    inputs: &Vec<Input>,
    outputs: &mut Vec<Output>,
    targets: &Vec<Target>,
) -> Result<Option<Buffer>, Error> {
    let mut call = sess.run_begin(inputs, outputs, targets, None)?;
    for i in 0..call.request_count() {
        let h = eng.grant_handle(call.request(i));
        call.grant(h);
    }
    let reply = eng.execute(&call);
    let (to_release, result) = sess.run_finish(call, outputs, reply);
    eng.release_all(to_release);
    result
}

#[test]
fn input_get() {
    let a = Tensor::new(
        vec![Float64 { bits: 42.0f64.to_bits() }, Float64 { bits: 69.0f64.to_bits() }],
        &[2],
    )
    .unwrap();
    let mut a = Input::new("a", a);
    let a = a.get::<Float64>().unwrap();
    assert_eq!(f64::from_bits(a.data()[0].bits), 42.0);
    assert_eq!(f64::from_bits(a.data()[1].bits), 69.0);
}

#[test]
fn input_get_checks_the_type_without_consuming() {
    let mut a = Input::new("a", Tensor::new(vec![1i32, 2], &[2]).unwrap());
    assert_eq!(
        a.get::<Float64>().unwrap_err(),
        Error::TypeMismatch { expected: Type::Double, actual: Type::Int32 }
    );
    assert!(a.is_bound());
    let t = a.get::<i32>().unwrap();
    assert_eq!(t.data().as_slice(), &[1, 2]);
    assert_eq!(a.get::<i32>().unwrap_err(), Error::NotReady);
}

#[test]
fn input_set_displaces_the_previous_tensor() {
    let mut a = Input::new("a", Tensor::new(vec![1i32], &[1]).unwrap());
    let prev = a.set(Tensor::new(vec![2i32], &[1]).unwrap());
    assert!(prev.is_some());
    assert_eq!(a.get::<i32>().unwrap().data().as_slice(), &[2]);
}

#[test]
fn round_trip() {
    let mut eng = FakeEngine::new(Behavior::PassThrough);
    let mut sess = Session::new();
    let inputs = vec![Input::new("x", Tensor::new(vec![1i32, 2, 3], &[3]).unwrap())];
    let mut outputs = vec![Output::new("y")];
    run(&mut eng, &mut sess, &inputs, &mut outputs, &vec![]).unwrap();
    let t = outputs[0].get::<i32>().unwrap();
    assert_eq!(t.data().as_slice(), &[1, 2, 3]);
    assert_eq!(t.dimensions(), vec![3]);
    // the extracted tensor adopted the engine's handle; give it back
    eng.release(t.release().expect("an adopted tensor owns a handle"));
    assert!(eng.live.is_empty());
}

#[test]
fn run_with_unbound_input_calls_no_engine() {
    let mut eng = FakeEngine::new(Behavior::PassThrough);
    let mut sess = Session::new();
    let inputs = vec![
        Input::new("a", Tensor::new(vec![1i32], &[1]).unwrap()),
        Input::unbound("b"),
    ];
    let mut outputs = vec![Output::new("c")];
    let r = run(&mut eng, &mut sess, &inputs, &mut outputs, &vec![]);
    assert_eq!(r.unwrap_err(), Error::UnboundInput { name: "b".to_string() });
    assert_eq!(eng.invocations, 0);
    assert!(eng.live.is_empty());
}

#[test]
fn extraction_consumes_the_result_once() {
    let mut eng = FakeEngine::new(Behavior::PassThrough);
    let mut sess = Session::new();
    let inputs = vec![Input::new("x", Tensor::new(vec![5u8], &[1]).unwrap())];
    let mut outputs = vec![Output::new("y")];
    run(&mut eng, &mut sess, &inputs, &mut outputs, &vec![]).unwrap();
    let first = outputs[0].get::<u8>().unwrap();
    assert_eq!(first.data().as_slice(), &[5]);
    assert_eq!(outputs[0].get::<u8>().unwrap_err(), Error::NotReady);
    eng.release(first.release().unwrap());
}

#[test]
fn extraction_with_mismatched_type_fails_then_matching_succeeds() {
    let mut eng = FakeEngine::new(Behavior::PassThrough);
    let mut sess = Session::new();
    let data = vec![Float32 { bits: 2.5f32.to_bits() }];
    let inputs = vec![Input::new("x", Tensor::new(data, &[1]).unwrap())];
    let mut outputs = vec![Output::new("y")];
    run(&mut eng, &mut sess, &inputs, &mut outputs, &vec![]).unwrap();
    assert_eq!(
        outputs[0].get::<Float64>().unwrap_err(),
        Error::TypeMismatch { expected: Type::Double, actual: Type::Float }
    );
    assert!(outputs[0].is_ready());
    let t = outputs[0].get::<Float32>().unwrap();
    assert_eq!(f32::from_bits(t.data()[0].bits), 2.5);
    eng.release(t.release().unwrap());
}

#[test]
fn failed_run_releases_every_acquired_handle() {
    let mut eng = FakeEngine::new(Behavior::Fail(13, "kernel exploded"));
    let mut sess = Session::new();
    let inputs = vec![
        Input::new("a", Tensor::new(vec![1i32], &[1]).unwrap()),
        Input::new("b", Tensor::new(vec![2i32], &[1]).unwrap()),
    ];
    let mut outputs = vec![Output::new("c")];
    let r = run(&mut eng, &mut sess, &inputs, &mut outputs, &vec![]);
    assert_eq!(
        r.unwrap_err(),
        Error::EngineFailure { code: Code::Internal, message: "kernel exploded".to_string() }
    );
    assert_eq!(eng.invocations, 1);
    // nothing allocated during the failed call remains unreleased
    assert!(eng.live.is_empty());
    // no output was consumed by the failure
    assert!(!outputs[0].is_ready());
    assert_eq!(sess.status().code, Code::Internal);

    // the session remains usable for a subsequent successful run
    eng.behavior = Behavior::PassThrough;
    let inputs = vec![Input::new("a", Tensor::new(vec![7i32], &[1]).unwrap())];
    let mut outputs = vec![Output::new("c")];
    run(&mut eng, &mut sess, &inputs, &mut outputs, &vec![]).unwrap();
    let t = outputs[0].get::<i32>().unwrap();
    assert_eq!(t.data().as_slice(), &[7]);
    assert_eq!(sess.status().code, Code::OK);
    eng.release(t.release().unwrap());
    assert!(eng.live.is_empty());
}

#[test]
fn refused_allocation_releases_earlier_handles() {
    let mut eng = FakeEngine::new(Behavior::PassThrough);
    let sess = Session::new();
    let inputs = vec![
        Input::new("a", Tensor::new(vec![1i32], &[1]).unwrap()),
        Input::new("b", Tensor::new(vec![2i32], &[1]).unwrap()),
    ];
    let outputs = vec![Output::new("c")];
    let mut call = sess.run_begin(&inputs, &outputs, &vec![], None).unwrap();
    // the engine grants the first handle, then refuses the second
    let h = eng.grant_handle(call.request(0));
    call.grant(h);
    let (to_release, err) = call.deny();
    assert_eq!(err, Error::AllocationFailure);
    assert_eq!(to_release.len(), 1);
    eng.release_all(to_release);
    assert!(eng.live.is_empty());
    assert_eq!(eng.invocations, 0);
}

#[test]
fn elementwise_product() {
    let mut eng = FakeEngine::new(Behavior::ElementwiseProduct);
    let mut sess = Session::new();
    let fv = |xs: &[f32]| -> Vec<Float32> {
        xs.iter().map(|x| Float32 { bits: x.to_bits() }).collect()
    };
    let inputs = vec![
        Input::new("a", Tensor::new(fv(&[1.0, 2.0, 3.0]), &[3]).unwrap()),
        Input::new("b", Tensor::new(fv(&[4.0, 5.0, 6.0]), &[3]).unwrap()),
    ];
    let mut outputs = vec![Output::new("c")];
    run(&mut eng, &mut sess, &inputs, &mut outputs, &vec![]).unwrap();
    let c = outputs[0].get::<Float32>().unwrap();
    let got: Vec<f32> = c.data().iter().map(|x| f32::from_bits(x.bits)).collect();
    assert_eq!(got, vec![4.0, 10.0, 18.0]);
    assert_eq!(c.dimensions(), vec![3]);
    eng.release(c.release().unwrap());
    assert!(eng.live.is_empty());
}

#[test]
fn second_run_displaces_the_unextracted_result() {
    let mut eng = FakeEngine::new(Behavior::PassThrough);
    let mut sess = Session::new();
    let mut outputs = vec![Output::new("y")];
    let inputs = vec![Input::new("x", Tensor::new(vec![1i32], &[1]).unwrap())];
    run(&mut eng, &mut sess, &inputs, &mut outputs, &vec![]).unwrap();
    assert_eq!(eng.live.len(), 1);
    // run again without extracting: the old result handle must be displaced
    // and handed back for release, leaving exactly one live handle per output
    let inputs = vec![Input::new("x", Tensor::new(vec![2i32], &[1]).unwrap())];
    run(&mut eng, &mut sess, &inputs, &mut outputs, &vec![]).unwrap();
    assert_eq!(eng.live.len(), 1);
    let t = outputs[0].get::<i32>().unwrap();
    assert_eq!(t.data().as_slice(), &[2]);
    eng.release(t.release().unwrap());
    assert!(eng.live.is_empty());
}

#[test]
fn extend_records_the_outcome() {
    let mut sess = Session::new();
    let def = Definition::new(vec![8, 1, 12]);
    assert!(sess.extend(&def, EngineStatus::ok()).is_ok());
    assert_eq!(sess.status().code, Code::OK);
    let err = sess
        .extend(&def, EngineStatus { code: 3, message: "bad graph".to_string() })
        .unwrap_err();
    assert_eq!(
        err,
        Error::EngineFailure { code: Code::InvalidArgument, message: "bad graph".to_string() }
    );
    assert_eq!(sess.status().code, Code::InvalidArgument);
    assert_eq!(sess.status().message, "bad graph".to_string());
}

#[test]
fn run_metadata_comes_back_as_a_foreign_buffer() {
    let mut sess = Session::new();
    let inputs: Vec<Input> = vec![];
    let outputs_before: Vec<Output> = vec![];
    let targets = vec![Target::new("init")];
    let call = sess.run_begin(&inputs, &outputs_before, &targets, None).unwrap();
    assert_eq!(call.target_count(), 1);
    assert_eq!(call.target_name(0).as_str(), "init");
    let mut outputs: Vec<Output> = vec![];
    let reply = RunReply::Success { outputs: vec![], metadata: Some(vec![1, 2, 3]) };
    let (to_release, result) = sess.run_finish(call, &mut outputs, reply);
    assert!(to_release.is_empty());
    let mut meta = result.unwrap().expect("the engine wrote metadata");
    assert_eq!(meta.as_bytes().as_slice(), &[1, 2, 3]);
    // engine-owned storage: taking the bytes copies and flips to owned
    assert_eq!(meta.empty(), vec![1, 2, 3]);
}

#[test]
fn run_options_travel_with_the_call() {
    let sess = Session::new();
    let opts = Buffer::new(vec![9, 8, 7]);
    let inputs: Vec<Input> = vec![];
    let outputs: Vec<Output> = vec![];
    let call = sess.run_begin(&inputs, &outputs, &vec![], Some(&opts)).unwrap();
    assert_eq!(call.options_bytes().unwrap().as_slice(), &[9, 8, 7]);
    assert_eq!(call.request_count(), 0);
    assert_eq!(call.granted_count(), call.request_count());
}

#[test]
fn run_call_carries_names_in_order() {
    let sess = Session::new();
    let inputs = vec![
        Input::new("in0", Tensor::new(vec![1u16], &[1]).unwrap()),
        Input::new("in1", Tensor::new(vec![2u16], &[1]).unwrap()),
    ];
    let outputs = vec![Output::new("out0"), Output::new("out1")];
    let targets = vec![Target::new("t0")];
    let call = sess.run_begin(&inputs, &outputs, &targets, None).unwrap();
    assert_eq!(call.input_name(0).as_str(), "in0");
    assert_eq!(call.input_name(1).as_str(), "in1");
    assert_eq!(call.output_name(0).as_str(), "out0");
    assert_eq!(call.output_name(1).as_str(), "out1");
    assert_eq!(call.target_name(0).as_str(), "t0");
    assert_eq!(call.request(0).elements, Elements::UInt16(vec![1]));
    assert_eq!(call.request(1).elements, Elements::UInt16(vec![2]));
}

#[test]
fn raw_tensor_rejects_malformed_reports() {
    // negative dimension
    assert!(RawTensor::new(Handle::new(1), vec![-1], Elements::Int32(vec![1])).is_none());
    // product does not match the element count
    assert!(RawTensor::new(Handle::new(2), vec![2, 2], Elements::Int32(vec![1, 2, 3])).is_none());
    // a scalar handle carries no extractable elements
    assert!(RawTensor::new(Handle::new(3), vec![], Elements::Int32(vec![1])).is_none());
    assert!(RawTensor::new(Handle::new(4), vec![], Elements::Int32(vec![])).is_some());
    let good = RawTensor::new(Handle::new(5), vec![2, 3], Elements::UInt8(vec![0; 6])).unwrap();
    assert_eq!(good.kind(), Type::UInt8);
    assert_eq!(good.count(), 6);
    assert_eq!(good.release().id(), 5);
}

#[test]
fn output_release_returns_the_pending_handle() {
    let o = Output::new("y");
    assert!(o.release().is_none());
    let mut o = Output::new("y");
    let mut sess = Session::new();
    let call = sess.run_begin(&vec![], &vec![], &vec![], None).unwrap();
    let raw = RawTensor::new(Handle::new(77), vec![1], Elements::Bool(vec![true])).unwrap();
    let mut outs = vec![o];
    let (_, result) = sess.run_finish(
        call,
        &mut outs,
        RunReply::Success { outputs: vec![raw], metadata: None },
    );
    result.unwrap();
    o = outs.pop().unwrap();
    assert_eq!(o.release().unwrap().id(), 77);
}
