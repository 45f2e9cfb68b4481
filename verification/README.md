# embassy-net

The decisions of an async network stack, verified with Verus.

The library in `src/` does no I/O. It is told what happened and answers with what is to be done
next; `app/` owns the `xarxa` stack, carries the answers out on it and turns waiting into futures.

- `config`, `lists`, `wire`: what a user asks of the stack. Lists and strings have a fixed capacity
  and are collections of `heapless`.
- `iface`, `model`: what is read of the network interface, what is done to it, and what that means.
- `stack`: the state of a stack. Configurations, the course of a poll, waiting tasks.
- `timestamps`, `waiting`: the channel and the waker slots of `embassy-sync`.
- `dns`: the course of a DNS query.
- `cooperative`: the work budgets of a cooperative poll.
- `driver`: the interface of a driver that exchanges owned packet buffers.
- `driver_util`, `egress`, `phy`, `nonzero`: a driver that hands out tokens, as a device of the
  stack.

Functions named `law_*` state what holds of several functions together.
