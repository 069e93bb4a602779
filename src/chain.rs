use vstd::prelude::*;
use crate::downbeat::Downbeat;
use crate::fader::Fader;
use crate::looper::{LoopBehavior, Looper};
use crate::recorder::{ClipInfo, Recorder};
use crate::resampler::Resampler;
use crate::section::Section;
use crate::supply::{
    audio_request_fits, SupplyAudioRequest, SupplyMidiRequest, SupplyResponse,
};
use crate::time_stretcher::TimeStretcher;

verus! {

/// `head` with its resampler replaced.
pub open spec fn head_with_resampler(head: Fader, resampler: Resampler) -> Fader {
    Fader { supplier: resampler, ..head }
}

/// `head` with its time stretcher replaced.
pub open spec fn head_with_time_stretcher(head: Fader, time_stretcher: TimeStretcher) -> Fader {
    head_with_resampler(head, Resampler { supplier: time_stretcher, ..head.supplier })
}

/// `head` with its downbeat stage replaced.
pub open spec fn head_with_downbeat(head: Fader, downbeat: Downbeat) -> Fader {
    head_with_time_stretcher(head, TimeStretcher { supplier: downbeat, ..head.supplier.supplier })
}

/// `head` with its looper replaced.
pub open spec fn head_with_looper(head: Fader, looper: Looper) -> Fader {
    head_with_downbeat(head, Downbeat { supplier: looper, ..head.supplier.supplier.supplier })
}

/// `head` with its section replaced.
pub open spec fn head_with_section(head: Fader, section: Section) -> Fader {
    head_with_looper(head, Looper { supplier: section, ..head.supplier.supplier.supplier.supplier })
}

/// `head` with its recorder replaced.
pub open spec fn head_with_recorder(head: Fader, recorder: Recorder) -> Fader {
    head_with_section(
        head,
        Section { supplier: recorder, ..head.supplier.supplier.supplier.supplier.supplier },
    )
}

/// The fixed nesting of stages around a recorder:
/// fader, resampler, time stretcher, downbeat, looper, section, recorder.
#[derive(Clone, Debug)]
pub struct SupplierChain {
    head: Fader,
}

impl SupplierChain {
    pub closed spec fn view_head(&self) -> Fader {
        self.head
    }

    pub open spec fn spec_resampler(&self) -> Resampler {
        self.view_head().supplier
    }

    pub open spec fn spec_time_stretcher(&self) -> TimeStretcher {
        self.spec_resampler().supplier
    }

    pub open spec fn spec_downbeat(&self) -> Downbeat {
        self.spec_time_stretcher().supplier
    }

    pub open spec fn spec_looper(&self) -> Looper {
        self.spec_downbeat().supplier
    }

    pub open spec fn spec_section(&self) -> Section {
        self.spec_looper().supplier
    }

    pub open spec fn spec_recorder(&self) -> Recorder {
        self.spec_section().supplier
    }

    pub open spec fn wf(&self) -> bool {
        self.view_head().wf()
    }

    /// A chain around the recorder, with resampler, time stretcher, downbeat stage, looper and
    /// fader enabled, the section covering the whole material and the material played once.
    pub fn new(recorder: Recorder) -> (r: SupplierChain)
        ensures
            r.view_head() == (Fader {
                enabled: true,
                fade_out_end: None,
                supplier: Resampler {
                    enabled: true,
                    supplier: TimeStretcher {
                        enabled: true,
                        tempo_factor: None,
                        supplier: Downbeat {
                            enabled: true,
                            downbeat_frame: 0,
                            supplier: Looper {
                                loop_behavior: LoopBehavior::UntilEndOfCycle(0),
                                enabled: true,
                                supplier: Section { start_frame: 0, length: None, supplier: recorder },
                            },
                        },
                    },
                },
            }),
    {
        let mut chain = SupplierChain {
            head: Fader::new(
                Resampler::new(
                    TimeStretcher::new(Downbeat::new(Looper::new(Section::new(recorder)))),
                ),
            ),
        };
        chain.fader_mut().set_enabled(true);
        chain.resampler_mut().set_enabled(true);
        chain.time_stretcher_mut().set_enabled(true);
        chain.looper_mut().set_enabled(true);
        chain.downbeat_mut().set_enabled(true);
        chain
    }

    pub fn head(&self) -> (r: &Fader)
        ensures
            *r == self.view_head(),
    {
        &self.head
    }

    pub fn head_mut(&mut self) -> (r: &mut Fader)
        ensures
            *r == old(self).view_head(),
            final(self).view_head() == *final(r),
    {
        &mut self.head
    }

    pub fn fader(&self) -> (r: &Fader)
        ensures
            *r == self.view_head(),
    {
        &self.head
    }

    pub fn fader_mut(&mut self) -> (r: &mut Fader)
        ensures
            *r == old(self).view_head(),
            final(self).view_head() == *final(r),
    {
        &mut self.head
    }

    pub fn resampler(&self) -> (r: &Resampler)
        ensures
            *r == self.spec_resampler(),
    {
        self.head.supplier()
    }

    pub fn resampler_mut(&mut self) -> (r: &mut Resampler)
        ensures
            *r == old(self).spec_resampler(),
            final(self).view_head() == head_with_resampler(old(self).view_head(), *final(r)),
    {
        self.head.supplier_mut()
    }

    pub fn time_stretcher(&self) -> (r: &TimeStretcher)
        ensures
            *r == self.spec_time_stretcher(),
    {
        self.resampler().supplier()
    }

    pub fn time_stretcher_mut(&mut self) -> (r: &mut TimeStretcher)
        ensures
            *r == old(self).spec_time_stretcher(),
            final(self).view_head() == head_with_time_stretcher(old(self).view_head(), *final(r)),
    {
        self.resampler_mut().supplier_mut()
    }

    pub fn downbeat(&self) -> (r: &Downbeat)
        ensures
            *r == self.spec_downbeat(),
    {
        self.time_stretcher().supplier()
    }

    pub fn downbeat_mut(&mut self) -> (r: &mut Downbeat)
        ensures
            *r == old(self).spec_downbeat(),
            final(self).view_head() == head_with_downbeat(old(self).view_head(), *final(r)),
    {
        self.time_stretcher_mut().supplier_mut()
    }

    pub fn looper(&self) -> (r: &Looper)
        ensures
            *r == self.spec_looper(),
    {
        self.downbeat().supplier()
    }

    pub fn looper_mut(&mut self) -> (r: &mut Looper)
        ensures
            *r == old(self).spec_looper(),
            final(self).view_head() == head_with_looper(old(self).view_head(), *final(r)),
    {
        self.downbeat_mut().supplier_mut()
    }

    pub fn section(&self) -> (r: &Section)
        ensures
            *r == self.spec_section(),
    {
        self.looper().supplier()
    }

    pub fn section_mut(&mut self) -> (r: &mut Section)
        ensures
            *r == old(self).spec_section(),
            final(self).view_head() == head_with_section(old(self).view_head(), *final(r)),
    {
        self.looper_mut().supplier_mut()
    }

    pub fn recorder(&self) -> (r: &Recorder)
        ensures
            *r == self.spec_recorder(),
    {
        self.section().supplier()
    }

    pub fn recorder_mut(&mut self) -> (r: &mut Recorder)
        ensures
            *r == old(self).spec_recorder(),
            final(self).view_head() == head_with_recorder(old(self).view_head(), *final(r)),
    {
        self.section_mut().supplier_mut()
    }

    /// The frame rate of the material, once it is known.
    pub fn source_frame_rate_in_ready_state(&self) -> (r: u32)
        requires
            self.spec_recorder().spec_frame_rate() is Some,
        ensures
            r == self.spec_recorder().spec_frame_rate()->0,
    {
        match self.recorder().frame_rate() {
            Some(rate) => rate,
            None => 0,
        }
    }

    /// The number of frames of the section, that is of one cycle.
    pub fn section_frame_count_in_ready_state(&self) -> (r: usize)
        ensures
            r == self.spec_section().material().len(),
    {
        self.section().frame_count()
    }

    pub fn clip_info(&self) -> (r: Option<ClipInfo>)
        ensures
            r == (if !self.spec_recorder().spec_is_recording()
                && self.spec_recorder().spec_frame_rate() is Some {
                Some(
                    ClipInfo {
                        is_midi: self.spec_recorder().spec_is_midi(),
                        frame_rate: self.spec_recorder().spec_frame_rate()->0,
                        frame_count: self.spec_recorder().material().len() as usize,
                    },
                )
            } else {
                None
            }),
    {
        self.recorder().clip_info()
    }

    /// Asks the head of the chain for audio.
    pub fn supply_audio(&mut self, request: &SupplyAudioRequest, dest: &mut Vec<i32>) -> (r:
        SupplyResponse)
        requires
            old(self).wf(),
            old(self).view_head().can_supply_audio(*request),
            audio_request_fits(*request, old(dest)@.len() as int),
        ensures
            *final(self) == *old(self),
            (r, final(dest)@) == old(self).view_head().audio_outcome(*request, old(dest)@),
    {
        self.head.supply_audio(request, dest)
    }

    /// Asks the head of the chain for MIDI events.
    pub fn supply_midi(&mut self, request: &SupplyMidiRequest, events: &mut Vec<i32>) -> (r:
        SupplyResponse)
        requires
            old(self).wf(),
            old(self).view_head().can_supply_midi_from(request.start_frame as int),
            request.dest_frame_count <= old(events)@.len(),
        ensures
            *final(self) == *old(self),
            (r, final(events)@) == old(self).view_head().midi_outcome(*request, old(events)@),
    {
        self.head.supply_midi(request, events)
    }
}

} // verus!
