//! Snapshots of the chain.

use crate::chain::ChainView;
use crate::forward::{Forward, Outcome};
use crate::message::{chain_key, Cmd, MsgType, Outgoing, OutgoingView, Resp, SnapshotReq};
use crate::task::{Ask, AskView, Effect, EffectView, PackedWriter, PackedWriterView};
use vstd::prelude::*;
use vstd::string::StringExecFns;

verus! {

/// The file that snapshots are written to and read from.
pub open spec fn snapshot_file() -> Seq<char> {
    "snap_chain.rlp"@
}

/// What telling the snapshot tool something is.
pub open spec fn snapshot_effect(resp: Resp) -> EffectView {
    EffectView::Publish(chain_key(MsgType::SnapshotResp), OutgoingView::SnapshotResp(resp))
}

/// What is done at the end of an order to restore: the other services are told where the chain
/// stands now, and the snapshot tool that the order has been dealt with.
pub open spec fn restore_ends() -> Seq<EffectView> {
    seq![EffectView::BroadcastCurrentStatus, snapshot_effect(Resp::RestoreAck)]
}

/// A writer that has written nothing.
pub open spec fn fresh_writer() -> PackedWriterView {
    PackedWriterView { file: snapshot_file(), block_hashes: seq![], cur_len: 0 }
}

/// What taking a snapshot is: it starts at the current block, and is written anew.
pub open spec fn take_snapshot_effect(chain: ChainView) -> EffectView {
    EffectView::TakeSnapshot { start_hash: chain.current_hash, writer: fresh_writer() }
}

/// What an order of the snapshot tool comes to.
pub open spec fn snapshot_outcome(chain: ChainView, req: SnapshotReq) -> Outcome {
    match req.cmd {
        Cmd::Snapshot => Outcome::done(
            chain,
            seq![take_snapshot_effect(chain), snapshot_effect(Resp::SnapshotAck)],
        ),
        Cmd::Restore => Outcome::asking(chain, AskView::OpenSnapshot { file: snapshot_file() }),
        Cmd::Other => Outcome::idle(chain),
    }
}

/// A snapshot has been opened, or could not be. In either case the tool gets its answer, at
/// once if there is nothing to restore from.
pub open spec fn snapshot_opened_outcome(
    chain: ChainView,
    opened: Result<bool, String>,
) -> Outcome {
    if opened == Ok::<bool, String>(true) {
        Outcome::asking(chain, AskView::RootNodePath)
    } else {
        Outcome::done(chain, restore_ends())
    }
}

/// The directory under which a snapshot is restored, in the directory of the node.
pub open spec fn snapshot_root(root_node_path: Seq<char>) -> Seq<char> {
    root_node_path + "/snapshot_chain"@
}

/// What restoring is: it is done with recovery, in the directory of the node.
pub open spec fn restore_effect(root_node_path: Seq<char>) -> EffectView {
    EffectView::RestoreSnapshot { snapshot_root: snapshot_root(root_node_path), recover: true }
}

/// The snapshot is restored, and the order ends.
pub open spec fn root_node_path_outcome(chain: ChainView, root_node_path: Seq<char>) -> Outcome {
    Outcome::done(
        chain,
        seq![
            restore_effect(root_node_path),
            EffectView::BroadcastCurrentStatus,
            snapshot_effect(Resp::RestoreAck),
        ],
    )
}

/// Whether there is a snapshot to restore from; if not, what is wrong with the file.
pub fn check_snapshot(opened: Result<bool, String>) -> (res: Result<(), String>)
    ensures
        match opened {
            Ok(true) => res is Ok,
            Ok(false) => res matches Err(text) && text@ == "Snapshot file has invalid format."@,
            Err(e) => res matches Err(text) && text@ == "Couldn't open snapshot file: "@ + e@,
        },
{
    match opened {
        Ok(true) => Ok(()),
        Ok(false) => Err("Snapshot file has invalid format.".to_owned()),
        Err(e) => Err("Couldn't open snapshot file: ".to_owned().concat(e.as_str())),
    }
}

impl Forward {
    /// Does what the snapshot tool orders.
    pub fn deal_snapshot_req(&mut self, req: SnapshotReq) -> (ask: Option<Ask>)
        ensures
            final(self).reached(*old(self), ask, snapshot_outcome(old(self).chain@, req)),
    {
        match req.cmd {
            Cmd::Snapshot => {
                self.take_snapshot(req);
                self.publish(
                    MsgType::SnapshotResp,
                    Outgoing::SnapshotResp(Resp::SnapshotAck),
                );
                None
            },
            Cmd::Restore => Some(self.restore(&req)),
            Cmd::Other => None,
        }
    }

    /// Lists the writing of a snapshot. The height and the file that the order names are ignored.
    pub fn take_snapshot(&mut self, _snap_shot: SnapshotReq)
        ensures
            final(self).reached(
                *old(self),
                None,
                Outcome::done(old(self).chain@, seq![take_snapshot_effect(old(self).chain@)]),
            ),
    {
        let writer = PackedWriter {
            file: "snap_chain.rlp".to_owned(),
            block_hashes: Vec::new(),
            cur_len: 0,
        };
        assert(writer@.block_hashes =~= seq![]);
        self.emit(Effect::TakeSnapshot { start_hash: self.chain.current_hash, writer });
    }

    /// Starts to restore a snapshot.
    pub fn restore(&self, _snap_shot: &SnapshotReq) -> (ask: Ask)
        ensures
            ask@ == (AskView::OpenSnapshot { file: snapshot_file() }),
    {
        Ask::OpenSnapshot { file: "snap_chain.rlp".to_owned() }
    }

    /// Goes on with an order to restore once the snapshot has been opened, or could not be.
    pub(crate) fn snapshot_opened(&mut self, opened: Result<bool, String>) -> (ask: Option<Ask>)
        ensures
            final(self).reached(
                *old(self),
                ask,
                snapshot_opened_outcome(old(self).chain@, opened),
            ),
    {
        match check_snapshot(opened) {
            Ok(()) => Some(Ask::RootNodePath),
            Err(_) => {
                self.end_restore();
                None
            },
        }
    }

    /// Goes on with an order to restore once the directory of the node is known.
    pub(crate) fn root_node_path_read(&mut self, root_node_path: String) -> (ask: Option<Ask>)
        ensures
            final(self).reached(
                *old(self),
                ask,
                root_node_path_outcome(old(self).chain@, root_node_path@),
            ),
    {
        let snapshot_root = root_node_path.concat("/snapshot_chain");
        self.emit(Effect::RestoreSnapshot { snapshot_root, recover: true });
        self.end_restore();
        None
    }

    fn end_restore(&mut self)
        ensures
            final(self).reached(
                *old(self),
                None,
                Outcome::done(old(self).chain@, restore_ends()),
            ),
    {
        self.emit(Effect::BroadcastCurrentStatus);
        self.publish(MsgType::SnapshotResp, Outgoing::SnapshotResp(Resp::RestoreAck));
    }
}

} // verus!
