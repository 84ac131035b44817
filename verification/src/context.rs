//! The batch run's shared state: the configuration and the tool locations,
//! and the per-emote filesystem layout derived from them.

use vstd::prelude::*;
use crate::binaries::Binaries;
use crate::emote_ext::{BttvId, EmoteId, SevenTvId};
use crate::opt::Opt;
use crate::text::{hex_of, join_path, path_join};

verus! {

/// Configuration and tool locations, shared read-only by every item of a
/// batch.
#[derive(Debug)]
pub struct Context {
    pub opt: Opt,
    pub bin: Binaries,
}

impl Context {
    /// A context over the given configuration and binaries.
    pub fn new(opt: Opt, bin: Binaries) -> (r: Context)
        ensures
            r.opt == opt,
            r.bin == bin,
    {
        Context { opt, bin }
    }

    /// The configured ids of the first provider.
    pub fn as_seven_tv_ids(&self) -> (r: &Vec<SevenTvId>)
        ensures
            r == &self.opt.seven_tv_ids,
    {
        &self.opt.seven_tv_ids
    }

    /// The configured ids of the second provider.
    pub fn as_bttv_ids(&self) -> (r: &Vec<BttvId>)
        ensures
            r == &self.opt.bttv_ids,
    {
        &self.opt.bttv_ids
    }

    /// All configured ids as one batch input, second provider first.
    pub fn to_emote_ids(&self) -> (r: Vec<EmoteId>)
        ensures
            r@ == self.opt.bttv_ids@.map_values(|b: BttvId| EmoteId::Bttv(b))
                + self.opt.seven_tv_ids@.map_values(|s: SevenTvId| EmoteId::SevenTv(s)),
    {
        let ghost bs = self.opt.bttv_ids@.map_values(|b: BttvId| EmoteId::Bttv(b));
        let ghost ss = self.opt.seven_tv_ids@.map_values(|s: SevenTvId| EmoteId::SevenTv(s));
        let mut ids: Vec<EmoteId> = Vec::new();
        let mut i: usize = 0;
        while i < self.opt.bttv_ids.len()
            invariant
                i <= self.opt.bttv_ids@.len(),
                bs == self.opt.bttv_ids@.map_values(|b: BttvId| EmoteId::Bttv(b)),
                ids@ =~= bs.take(i as int),
            decreases self.opt.bttv_ids@.len() - i,
        {
            ids.push(EmoteId::Bttv(self.opt.bttv_ids[i]));
            i = i + 1;
        }
        proof {
            assert(ids@ =~= bs);
        }
        let mut j: usize = 0;
        while j < self.opt.seven_tv_ids.len()
            invariant
                j <= self.opt.seven_tv_ids@.len(),
                ss == self.opt.seven_tv_ids@.map_values(|s: SevenTvId| EmoteId::SevenTv(s)),
                ids@ =~= bs + ss.take(j as int),
            decreases self.opt.seven_tv_ids@.len() - j,
        {
            ids.push(EmoteId::SevenTv(self.opt.seven_tv_ids[j]));
            j = j + 1;
        }
        proof {
            assert(ids@ =~= bs + ss);
        }
        ids
    }

    /// Where the emote's download lives.
    pub fn download_path(&self, id: EmoteId) -> (r: String)
        ensures
            r@ == path_join(self.opt.download_dir@, id.file_name_of()),
    {
        let name = id.to_file_name();
        join_path(&self.opt.download_dir, &name)
    }

    /// The emote's own raw-frames directory.
    pub fn raw_frames_path(&self, id: EmoteId) -> (r: String)
        ensures
            r@ == path_join(self.opt.raw_frames_dir@, hex_of(id.id_bytes())),
    {
        let name = id.hex_string();
        join_path(&self.opt.raw_frames_dir, &name)
    }

    /// The emote's own resized-frames directory.
    pub fn resized_frames_path(&self, id: EmoteId) -> (r: String)
        ensures
            r@ == path_join(self.opt.resized_frames_dir@, hex_of(id.id_bytes())),
    {
        let name = id.hex_string();
        join_path(&self.opt.resized_frames_dir, &name)
    }

    /// Where the emote's static sticker is written.
    pub fn static_out_path(&self, id: EmoteId) -> (r: String)
        ensures
            r@ == path_join(self.opt.out_static_dir@, id.file_name_of()),
    {
        let name = id.to_file_name();
        join_path(&self.opt.out_static_dir, &name)
    }

    /// Where the emote's animated sticker is written.
    pub fn anim_out_path(&self, id: EmoteId) -> (r: String)
        ensures
            r@ == path_join(self.opt.out_anim_dir@, id.file_name_of()),
    {
        let name = id.to_file_name();
        join_path(&self.opt.out_anim_dir, &name)
    }
}

} // verus!
